//! What holds of the operations on every store and for every argument.
//!
//! The laws speak of the spec functions that the contracts of the operations
//! use, so each of them holds of what the operations do.

use vstd::prelude::*;
use crate::crud::{
    create_blacklisted_creator_effect, create_blacklisted_creator_outcome, create_creator_effect,
    create_creator_outcome, create_interesting_link_effect, create_interesting_link_outcome,
    creator_fields_error, delete_creator_effect, join_with, joined, link_fields_error,
    update_blacklisted_creator_effect, update_blacklisted_creator_outcome, update_creator_effect,
    update_creator_outcome, update_interesting_link_effect, update_interesting_link_outcome,
};
use crate::error::{CrudError, ErrorKind};
use crate::model::{BlacklistModel, BlacklistedCreatorView, CreatorModel, LinkModel};
use crate::store::StoreState;
use crate::table::{RowView, TableView};
use crate::validate::{is_absolute_url, is_plain_text, is_rate};

verus! {

/// Whether `r` is an error of kind `kind`.
pub open spec fn fails_with<T>(r: Result<T, CrudError>, kind: ErrorKind) -> bool {
    match r {
        Ok(_) => false,
        Err(e) => e.kind_spec() == kind,
    }
}

/// Inserting, replacing and deleting keep a table well formed.
pub proof fn law_table_stays_well_formed<V>(t: TableView<V>, id: int, data: V)
    requires
        t.wf(),
    ensures
        t.has_room() ==> t.inserted(data).wf(),
        t.replaced(id, data).wf(),
        t.deleted(id).wf(),
{
}

/// After a delete, whether or not it removed a row, the next row is numbered
/// one above the newest row that is left, and 1 when none is left: what the
/// counter held before is forgotten.
pub proof fn law_delete_restarts_numbering<V>(t: TableView<V>, id: int)
    requires
        t.wf(),
    ensures
        t.deleted(id).next_id() == t.deleted(id).last_id() + 1,
        t.deleted(id).rows.len() == 0 ==> t.deleted(id).next_id() == 1,
{
}

/// Deleting the newest row frees its identifier: the rows inserted next are
/// numbered from at most that identifier on, so it is handed out again.
pub proof fn law_deleted_identifier_is_free_again<V>(t: TableView<V>)
    requires
        t.wf(),
        t.rows.len() > 0,
    ensures
        t.deleted(t.last_id()).next_id() <= t.last_id(),
        !t.deleted(t.last_id()).has_id(t.last_id()),
{
    let n = t.rows.len() as int;
    let id = t.last_id();
    assert(t.rows[n - 1].id == id);
    let k = t.index_of(id);
    assert(k == n - 1);
    let rest = t.deleted(id).rows;
    assert(rest =~= t.rows.take(n - 1));
    if n >= 2 {
        assert(rest.last() == t.rows[n - 2]);
    }
    if t.deleted(id).has_id(id) {
        let m = t.deleted(id).index_of(id);
        assert(rest[m] == t.rows[m]);
    }
}

/// Looking a row up after deleting `id` finds nothing under `id` and what
/// was there before under every other identifier.
pub proof fn law_lookup_after_delete<V>(t: TableView<V>, id: int, other: int)
    requires
        t.wf(),
    ensures
        t.deleted(id).lookup(id) is None,
        other != id ==> t.deleted(id).lookup(other) == t.lookup(other),
{
    let d = t.deleted(id);
    if !t.has_id(id) {
        assert(d.rows == t.rows);
        assert(d.has_id(other) == t.has_id(other));
        assert(d.index_of(other) == t.index_of(other));
    }
    if t.has_id(id) {
        let k = t.index_of(id);
        assert forall|i: int| 0 <= i < d.rows.len() implies (#[trigger] d.rows[i]).id != id by {
            if i < k {
                assert(d.rows[i] == t.rows[i]);
            } else {
                assert(d.rows[i] == t.rows[i + 1]);
            }
        }
        if other != id {
            if t.has_id(other) {
                let j = t.index_of(other);
                let j2 = if j < k {
                    j
                } else {
                    j - 1
                };
                assert(d.rows[j2] == t.rows[j]);
                assert(d.has_id(other));
                let m = d.index_of(other);
                let m2 = if m < k {
                    m
                } else {
                    m + 1
                };
                assert(t.rows[m2] == d.rows[m]);
                assert(m2 == j);
            } else {
                if d.has_id(other) {
                    let m = d.index_of(other);
                    let m2 = if m < k {
                        m
                    } else {
                        m + 1
                    };
                    assert(t.rows[m2] == d.rows[m]);
                    assert(false);
                }
            }
        }
    }
}

/// Every creator has a positive identifier, a name that is not empty and is
/// plain text, an absolute homepage and a rating in `0..=10`, whatever is
/// created, updated or deleted, and whether the call succeeds or fails.
pub proof fn law_creators_stay_valid(
    s: StoreState,
    id: int,
    name: Seq<char>,
    homepage: Seq<char>,
    rate: int,
)
    requires
        s.wf(),
    ensures
        create_creator_effect(s, name, homepage, rate).wf(),
        update_creator_effect(s, id, name, homepage, rate).wf(),
        delete_creator_effect(s, id).wf(),
{
}

/// A rating outside `0..=10` is refused as invalid input, on create and on
/// update, and the store stays as it was.
pub proof fn law_rate_outside_range_is_rejected(
    s: StoreState,
    id: int,
    name: Seq<char>,
    homepage: Seq<char>,
    rate: int,
)
    requires
        !is_rate(rate),
    ensures
        fails_with(create_creator_outcome(s, name, homepage, rate), ErrorKind::Validation),
        create_creator_effect(s, name, homepage, rate) == s,
        fails_with(update_creator_outcome(s, id, name, homepage, rate), ErrorKind::Validation),
        update_creator_effect(s, id, name, homepage, rate) == s,
{
}

/// A name, a reason or a source with a character that is neither an ASCII
/// letter, an ASCII digit nor whitespace is refused as invalid input, on
/// create and on update, and the store stays as it was.
pub proof fn law_text_outside_class_is_rejected(
    s: StoreState,
    id: int,
    creator_id: int,
    text: Seq<char>,
    homepage: Seq<char>,
    rate: int,
    date: Seq<char>,
    downloaded: bool,
    link_date: Option<Seq<char>>,
)
    requires
        !is_plain_text(text),
    ensures
        fails_with(create_creator_outcome(s, text, homepage, rate), ErrorKind::Validation),
        create_creator_effect(s, text, homepage, rate) == s,
        fails_with(update_creator_outcome(s, id, text, homepage, rate), ErrorKind::Validation),
        update_creator_effect(s, id, text, homepage, rate) == s,
        create_blacklisted_creator_outcome(s, creator_id, text, date) == Err::<(), CrudError>(
            CrudError::InvalidReason,
        ),
        create_blacklisted_creator_effect(s, creator_id, text, date) == s,
        fails_with(
            update_blacklisted_creator_outcome(s, id, creator_id, text, date),
            ErrorKind::Validation,
        ),
        update_blacklisted_creator_effect(s, id, creator_id, text, date) == s,
        fails_with(
            create_interesting_link_outcome(s, homepage, text, downloaded, link_date),
            ErrorKind::Validation,
        ),
        create_interesting_link_effect(s, homepage, text, downloaded, link_date) == s,
        fails_with(
            update_interesting_link_outcome(s, id, homepage, text, downloaded, link_date),
            ErrorKind::Validation,
        ),
        update_interesting_link_effect(s, id, homepage, text, downloaded, link_date) == s,
{
}

/// A link with a good URL and a source with such a character gets the
/// error that names the source.
pub proof fn law_source_outside_class_is_named(
    s: StoreState,
    url: Seq<char>,
    source: Seq<char>,
    downloaded: bool,
    date: Option<Seq<char>>,
)
    requires
        is_absolute_url(url),
        !is_plain_text(source),
    ensures
        link_fields_error(url, source) == Some(CrudError::InvalidSource),
        create_interesting_link_outcome(s, url, source, downloaded, date) == Err::<(), CrudError>(
            CrudError::InvalidSource,
        ),
{
}

/// A creator without a name is refused as invalid input, on create and on
/// update, and the store stays as it was.
pub proof fn law_empty_name_is_rejected(s: StoreState, id: int, homepage: Seq<char>, rate: int)
    ensures
        create_creator_outcome(s, Seq::<char>::empty(), homepage, rate) == Err::<int, CrudError>(
            CrudError::InvalidName,
        ),
        create_creator_effect(s, Seq::<char>::empty(), homepage, rate) == s,
        fails_with(
            update_creator_outcome(s, id, Seq::<char>::empty(), homepage, rate),
            ErrorKind::Validation,
        ),
        update_creator_effect(s, id, Seq::<char>::empty(), homepage, rate) == s,
{
}

/// A homepage or a link that does not parse as an absolute URL is refused
/// as invalid input, on create and on update, and the store stays as it was.
pub proof fn law_unparseable_url_is_rejected(
    s: StoreState,
    id: int,
    name: Seq<char>,
    url: Seq<char>,
    rate: int,
    source: Seq<char>,
    downloaded: bool,
    date: Option<Seq<char>>,
)
    requires
        !is_absolute_url(url),
    ensures
        fails_with(create_creator_outcome(s, name, url, rate), ErrorKind::Validation),
        create_creator_effect(s, name, url, rate) == s,
        fails_with(update_creator_outcome(s, id, name, url, rate), ErrorKind::Validation),
        update_creator_effect(s, id, name, url, rate) == s,
        create_interesting_link_outcome(s, url, source, downloaded, date) == Err::<(), CrudError>(
            CrudError::InvalidUrl,
        ),
        create_interesting_link_effect(s, url, source, downloaded, date) == s,
        fails_with(
            update_interesting_link_outcome(s, id, url, source, downloaded, date),
            ErrorKind::Validation,
        ),
        update_interesting_link_effect(s, id, url, source, downloaded, date) == s,
{
}

/// Blacklisting a creator that does not exist fails as an invalid reference
/// and writes nothing.
pub proof fn law_blacklisting_needs_an_existing_creator(
    s: StoreState,
    creator_id: int,
    reason: Seq<char>,
    date: Seq<char>,
)
    requires
        is_plain_text(reason),
        !s.creators.has_id(creator_id),
    ensures
        create_blacklisted_creator_outcome(s, creator_id, reason, date) == Err::<(), CrudError>(
            CrudError::InvalidCreatorId,
        ),
        CrudError::InvalidCreatorId.kind_spec() == ErrorKind::InvalidReference,
        create_blacklisted_creator_effect(s, creator_id, reason, date) == s,
{
}

/// Blacklisting an existing creator succeeds while the table has room, and
/// reading the blacklist then returns what it returned before followed by
/// the new row with the name of that creator.
pub proof fn law_blacklisted_creator_is_read_back(
    s: StoreState,
    creator_id: int,
    reason: Seq<char>,
    date: Seq<char>,
)
    requires
        s.wf(),
        is_plain_text(reason),
        s.creators.has_id(creator_id),
        s.blacklisted_creators.has_room(),
    ensures
        create_blacklisted_creator_outcome(s, creator_id, reason, date) is Ok,
        ({
            let after = create_blacklisted_creator_effect(s, creator_id, reason, date);
            joined(after.blacklisted_creators.rows, after.creators) == joined(
                s.blacklisted_creators.rows,
                s.creators,
            ).push(
                BlacklistedCreatorView {
                    id: s.blacklisted_creators.next_id(),
                    creator_id,
                    reason,
                    date,
                    name: s.creators.lookup(creator_id).unwrap().name,
                },
            )
        }),
{
    let after = create_blacklisted_creator_effect(s, creator_id, reason, date);
    let rows = after.blacklisted_creators.rows;
    assert(rows.drop_last() =~= s.blacklisted_creators.rows);
    assert(joined(rows, after.creators) =~= joined(s.blacklisted_creators.rows, s.creators).push(
        BlacklistedCreatorView {
            id: s.blacklisted_creators.next_id(),
            creator_id,
            reason,
            date,
            name: s.creators.lookup(creator_id).unwrap().name,
        },
    ));
}

/// The rows read from a blacklist after creator `id` is deleted are the
/// rows read before without those of that creator.
proof fn lemma_join_after_delete(
    rows: Seq<RowView<BlacklistModel>>,
    creators: TableView<CreatorModel>,
    id: int,
)
    requires
        creators.wf(),
    ensures
        joined(rows, creators.deleted(id)) == joined(rows, creators).filter(
            |r: BlacklistedCreatorView| r.creator_id != id,
        ),
    decreases rows.len(),
{
    reveal(Seq::filter);
    let keep = |r: BlacklistedCreatorView| r.creator_id != id;
    if rows.len() > 0 {
        let rest = rows.drop_last();
        let b = rows.last();
        lemma_join_after_delete(rest, creators, id);
        law_lookup_after_delete(creators, id, b.data.creator_id);
        let before = joined(rest, creators);
        match join_with(creators)(b) {
            Some(row) => {
                let all = before + seq![row];
                assert(all.drop_last() =~= before);
                assert(all.last() == row);
                assert(joined(rows, creators) == all);
                if b.data.creator_id != id {
                    assert(all.filter(keep) =~= before.filter(keep) + seq![row]);
                }
            },
            None => {},
        }
    }
}

/// Deleting a creator leaves the blacklist as it is, rows of that creator
/// included; reading the blacklist afterwards returns what it returned
/// before without the rows of that creator.
pub proof fn law_deleting_a_creator_orphans_its_blacklist_rows(s: StoreState, id: int)
    requires
        s.wf(),
        id > 0,
    ensures
        delete_creator_effect(s, id).blacklisted_creators == s.blacklisted_creators,
        joined(
            delete_creator_effect(s, id).blacklisted_creators.rows,
            delete_creator_effect(s, id).creators,
        ) == joined(s.blacklisted_creators.rows, s.creators).filter(
            |r: BlacklistedCreatorView| r.creator_id != id,
        ),
{
    lemma_join_after_delete(s.blacklisted_creators.rows, s.creators, id);
}

/// A created creator is the newest row of the table and holds exactly the
/// validated name, homepage and rate under the identifier that was returned.
pub proof fn law_created_creator_is_read_back(
    s: StoreState,
    name: Seq<char>,
    homepage: Seq<char>,
    rate: int,
)
    requires
        s.wf(),
        create_creator_outcome(s, name, homepage, rate) is Ok,
    ensures
        ({
            let id = create_creator_outcome(s, name, homepage, rate).unwrap();
            let after = create_creator_effect(s, name, homepage, rate).creators;
            &&& after.rows == s.creators.rows.push(
                RowView { id, data: CreatorModel { name, homepage, rate } },
            )
            &&& after.lookup(id) == Some(CreatorModel { name, homepage, rate })
            &&& !s.creators.has_id(id)
        }),
{
    let id = create_creator_outcome(s, name, homepage, rate).unwrap();
    let after = create_creator_effect(s, name, homepage, rate).creators;
    let n = s.creators.rows.len() as int;
    assert(after.rows[n].id == id);
    assert(after.has_id(id));
    assert forall|i: int| 0 <= i < n implies (#[trigger] after.rows[i]).id < id by {
        assert(after.rows[i] == s.creators.rows[i]);
        if i < n - 1 {
            assert(s.creators.rows[i].id < s.creators.rows[n - 1].id);
        }
    }
    assert(after.index_of(id) == n);
    if s.creators.has_id(id) {
        let k = s.creators.index_of(id);
        assert(after.rows[k].id < id);
    }
}

/// A created link is the newest row of the table and holds the URL, the
/// source, the flag and the date as given.
pub proof fn law_created_link_is_read_back(
    s: StoreState,
    url: Seq<char>,
    source: Seq<char>,
    downloaded: bool,
    date: Option<Seq<char>>,
)
    requires
        create_interesting_link_outcome(s, url, source, downloaded, date) is Ok,
    ensures
        create_interesting_link_effect(s, url, source, downloaded, date).interesting_links.rows
            == s.interesting_links.rows.push(
            RowView {
                id: s.interesting_links.next_id(),
                data: LinkModel { url, source: Some(source), downloaded, date },
            },
        ),
{
}

/// When a delete leaves the table of creators empty, the next creator gets
/// identifier 1.
pub proof fn law_numbering_restarts_after_clearing(
    s: StoreState,
    id: int,
    name: Seq<char>,
    homepage: Seq<char>,
    rate: int,
)
    requires
        s.wf(),
        id > 0,
        creator_fields_error(name, homepage, rate) is None,
        delete_creator_effect(s, id).creators.rows.len() == 0,
    ensures
        create_creator_outcome(delete_creator_effect(s, id), name, homepage, rate) == Ok::<
            int,
            CrudError,
        >(1),
{
}

/// Updating a row that does not exist, with arguments that are otherwise
/// good, reports that it was not found and leaves the store as it was.
pub proof fn law_update_of_missing_row_changes_nothing(
    s: StoreState,
    id: int,
    creator_id: int,
    name: Seq<char>,
    url: Seq<char>,
    rate: int,
    reason: Seq<char>,
    date: Seq<char>,
    source: Seq<char>,
    downloaded: bool,
    link_date: Option<Seq<char>>,
)
    requires
        id > 0,
        creator_id > 0,
        name.len() > 0,
        is_plain_text(name),
        is_plain_text(reason),
        is_plain_text(source),
        is_absolute_url(url),
        is_rate(rate),
    ensures
        !s.creators.has_id(id) ==> {
            &&& update_creator_outcome(s, id, name, url, rate) == Err::<(), CrudError>(
                CrudError::CreatorNotFound,
            )
            &&& update_creator_effect(s, id, name, url, rate) == s
        },
        !s.blacklisted_creators.has_id(id) ==> {
            &&& update_blacklisted_creator_outcome(s, id, creator_id, reason, date) == Err::<
                (),
                CrudError,
            >(CrudError::BlacklistedCreatorNotFound)
            &&& update_blacklisted_creator_effect(s, id, creator_id, reason, date) == s
        },
        !s.interesting_links.has_id(id) ==> {
            &&& update_interesting_link_outcome(s, id, url, source, downloaded, link_date) == Err::<
                (),
                CrudError,
            >(CrudError::InterestingLinkNotFound)
            &&& update_interesting_link_effect(s, id, url, source, downloaded, link_date) == s
        },
        CrudError::CreatorNotFound.kind_spec() == ErrorKind::NotFound,
        CrudError::BlacklistedCreatorNotFound.kind_spec() == ErrorKind::NotFound,
        CrudError::InterestingLinkNotFound.kind_spec() == ErrorKind::NotFound,
{
}

} // verus!
