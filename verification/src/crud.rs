//! The operations on creators, on the blacklist and on interesting links.
//!
//! Each operation validates its arguments before it touches the store, so a
//! validation error leaves the store as it was. What an operation returns and
//! what it does to the store are given by two spec functions, named after it.

use vstd::prelude::*;
use crate::error::CrudError;
use crate::model::{
    copy_text, text_of, BlacklistData, BlacklistModel, BlacklistedCreator, BlacklistedCreatorView,
    Creator, CreatorData, CreatorModel, InterestingLink, LinkData, LinkModel,
};
use crate::store::{Store, StoreState};
use crate::table::{RowView, TableView};
use crate::validate::{
    clamp_rate, is_absolute_url, is_plain_text, is_rate, positive_id, sanitize_input,
    sanitize_urls,
};

verus! {

/// The models of the elements of `s`, in order.
pub open spec fn views<T: View>(s: Seq<T>) -> Seq<T::V> {
    s.map_values(|t: T| t@)
}

/// The model of a result that carries an identifier.
pub open spec fn id_result(r: Result<i32, CrudError>) -> Result<int, CrudError> {
    match r {
        Ok(id) => Ok(id as int),
        Err(e) => Err(e),
    }
}

/// The model of a result that carries a number of rows.
pub open spec fn rows_result(r: Result<usize, CrudError>) -> Result<nat, CrudError> {
    match r {
        Ok(n) => Ok(n as nat),
        Err(e) => Err(e),
    }
}

/// What is wrong with the fields of a creator, if anything: the name is
/// checked first, then the homepage, then the rate. An empty name is as
/// wrong as one that is not plain text.
pub open spec fn creator_fields_error(name: Seq<char>, homepage: Seq<char>, rate: int) -> Option<
    CrudError,
> {
    if name.len() == 0 || !is_plain_text(name) {
        Some(CrudError::InvalidName)
    } else if !is_absolute_url(homepage) {
        Some(CrudError::InvalidHomepage)
    } else if !is_rate(rate) {
        Some(CrudError::InvalidRate)
    } else {
        None
    }
}

/// Validates the fields of a creator and packs them for the store.
pub fn check_creator(name: String, homepage: String, rate: i32) -> (r: Result<CreatorData, CrudError>)
    ensures
        match r {
            Ok(data) => creator_fields_error(name@, homepage@, rate as int) is None && data@ == (
            CreatorModel { name: name@, homepage: homepage@, rate: rate as int }),
            Err(e) => creator_fields_error(name@, homepage@, rate as int) == Some(e),
        },
{
    if name.as_str().is_empty() {
        return Err(CrudError::InvalidName);
    }
    let safe_name = match sanitize_input(name.as_str()) {
        Some(text) => text,
        None => {
            return Err(CrudError::InvalidName);
        },
    };
    let safe_homepage = match sanitize_urls(homepage.as_str()) {
        Some(text) => text,
        None => {
            return Err(CrudError::InvalidHomepage);
        },
    };
    let safe_rate = match clamp_rate(rate) {
        Ok(n) => n,
        Err(e) => {
            return Err(e);
        },
    };
    Ok(CreatorData { name: safe_name, homepage: safe_homepage, rate: safe_rate })
}

/// What `create_creator` returns: the identifier of the new row, or the
/// first error met.
pub open spec fn create_creator_outcome(
    s: StoreState,
    name: Seq<char>,
    homepage: Seq<char>,
    rate: int,
) -> Result<int, CrudError> {
    match creator_fields_error(name, homepage, rate) {
        Some(e) => Err(e),
        None => if s.creators.has_room() {
            Ok(s.creators.next_id())
        } else {
            Err(CrudError::TableFull)
        },
    }
}

/// The store after `create_creator`: one more creator on success, no change
/// on any error.
pub open spec fn create_creator_effect(
    s: StoreState,
    name: Seq<char>,
    homepage: Seq<char>,
    rate: int,
) -> StoreState {
    if create_creator_outcome(s, name, homepage, rate) is Ok {
        StoreState { creators: s.creators.inserted(CreatorModel { name, homepage, rate }), ..s }
    } else {
        s
    }
}

/// Adds a creator and returns its identifier.
///
/// The name must be plain text and not empty, the homepage an absolute URL
/// and the rate in `0..=10`; otherwise nothing is written.
pub fn create_creator(store: &mut Store, name: String, homepage: String, rate: i32) -> (r: Result<
    i32,
    CrudError,
>)
    requires
        old(store)@.wf(),
    ensures
        final(store)@.wf(),
        id_result(r) == create_creator_outcome(old(store)@, name@, homepage@, rate as int),
        final(store)@ == create_creator_effect(old(store)@, name@, homepage@, rate as int),
{
    let data = match check_creator(name, homepage, rate) {
        Ok(data) => data,
        Err(e) => {
            return Err(e);
        },
    };
    match store.creators.insert(data) {
        Some(id) => Ok(id),
        None => Err(CrudError::TableFull),
    }
}

/// Returns every creator, oldest first; an empty list when there is none.
///
/// Each of them has a positive identifier, a name that is not empty and is
/// plain text, an absolute homepage and a rating in `0..=10`.
pub fn read_creators(store: &Store) -> (r: Vec<Creator>)
    requires
        store@.wf(),
    ensures
        views(r@) == store@.creators.rows,
        forall|i: int| 0 <= i < r@.len() ==> (#[trigger] r@[i])@.id >= 1 && r@[i]@.data.valid(),
{
    let table = &store.creators;
    let mut out: Vec<Creator> = Vec::new();
    let mut i: usize = 0;
    while i < table.len()
        invariant
            0 <= i <= table@.rows.len(),
            out@.len() == i,
            views(out@) == table@.rows.take(i as int),
        decreases table@.rows.len() - i,
    {
        let entry = table.entry(i);
        let row = Creator {
            id: entry.id,
            name: entry.data.name.clone(),
            homepage: entry.data.homepage.clone(),
            rate: entry.data.rate,
        };
        assert(row@ == table@.rows[i as int]);
        let ghost before = out@;
        out.push(row);
        assert forall|k: int| 0 <= k <= i implies views(out@)[k] == table@.rows[k] by {
            if k < i {
                assert(views(before)[k] == table@.rows.take(i as int)[k]);
            }
        }
        assert(views(out@) =~= table@.rows.take(i as int + 1));
        i = i + 1;
    }
    assert(table@.rows.take(i as int) =~= table@.rows);
    assert forall|k: int| 0 <= k < out@.len() implies (#[trigger] out@[k])@.id >= 1
        && out@[k]@.data.valid() by {
        assert(views(out@)[k] == table@.rows[k]);
    }
    out
}

/// What `update_creator` returns: the identifier is checked first, then the
/// fields, then whether the row exists.
pub open spec fn update_creator_outcome(
    s: StoreState,
    id: int,
    name: Seq<char>,
    homepage: Seq<char>,
    rate: int,
) -> Result<(), CrudError> {
    if id <= 0 {
        Err(CrudError::InvalidId)
    } else {
        match creator_fields_error(name, homepage, rate) {
            Some(e) => Err(e),
            None => if s.creators.has_id(id) {
                Ok(())
            } else {
                Err(CrudError::CreatorNotFound)
            },
        }
    }
}

/// The store after `update_creator`: the row replaced as a whole on
/// success, no change on any error.
pub open spec fn update_creator_effect(
    s: StoreState,
    id: int,
    name: Seq<char>,
    homepage: Seq<char>,
    rate: int,
) -> StoreState {
    if update_creator_outcome(s, id, name, homepage, rate) is Ok {
        StoreState { creators: s.creators.replaced(id, CreatorModel { name, homepage, rate }), ..s }
    } else {
        s
    }
}

/// Replaces every field of creator `id`.
pub fn update_creator(store: &mut Store, id: i32, name: String, homepage: String, rate: i32) -> (r:
    Result<(), CrudError>)
    requires
        old(store)@.wf(),
    ensures
        final(store)@.wf(),
        r == update_creator_outcome(old(store)@, id as int, name@, homepage@, rate as int),
        final(store)@ == update_creator_effect(old(store)@, id as int, name@, homepage@, rate as int),
{
    let safe_id = match positive_id(id) {
        Ok(n) => n,
        Err(e) => {
            return Err(e);
        },
    };
    let data = match check_creator(name, homepage, rate) {
        Ok(data) => data,
        Err(e) => {
            return Err(e);
        },
    };
    let rows_affected = store.creators.replace(safe_id, data);
    if rows_affected == 0 {
        return Err(CrudError::CreatorNotFound);
    }
    Ok(())
}

/// What `delete_creator` returns: how many rows it deleted, none included.
pub open spec fn delete_creator_outcome(s: StoreState, id: int) -> Result<nat, CrudError> {
    if id <= 0 {
        Err(CrudError::InvalidId)
    } else {
        Ok(s.creators.count(id))
    }
}

/// The store after `delete_creator`: for a positive identifier the row is
/// gone and the counter of the table is reset, even when no row was
/// deleted. The blacklist is not touched.
pub open spec fn delete_creator_effect(s: StoreState, id: int) -> StoreState {
    if id <= 0 {
        s
    } else {
        StoreState { creators: s.creators.deleted(id), ..s }
    }
}

/// Deletes creator `id` and resets the counter of the table.
///
/// Blacklist rows of the creator stay behind. Because the counter is reset
/// on every call, a later creator can get the identifier of a deleted one,
/// and such rows then refer to the new creator.
pub fn delete_creator(store: &mut Store, id: i32) -> (r: Result<usize, CrudError>)
    requires
        old(store)@.wf(),
    ensures
        final(store)@.wf(),
        rows_result(r) == delete_creator_outcome(old(store)@, id as int),
        final(store)@ == delete_creator_effect(old(store)@, id as int),
{
    let safe_id = match positive_id(id) {
        Ok(n) => n,
        Err(e) => {
            return Err(e);
        },
    };
    let rows = store.creators.delete(safe_id);
    Ok(rows)
}

/// Validates the fields of a blacklist row and packs them for the store:
/// the reason must be plain text; the date is kept as given.
pub fn check_blacklisted_creator(creator_id: i32, reason: String, date: String) -> (r: Result<
    BlacklistData,
    CrudError,
>)
    ensures
        match r {
            Ok(data) => is_plain_text(reason@) && data@ == (BlacklistModel {
                creator_id: creator_id as int,
                reason: reason@,
                date: date@,
            }),
            Err(e) => !is_plain_text(reason@) && e == CrudError::InvalidReason,
        },
{
    match sanitize_input(reason.as_str()) {
        Some(text) => Ok(BlacklistData { creator_id, reason: text, date }),
        None => Err(CrudError::InvalidReason),
    }
}

/// What `create_blacklisted_creator` returns: the reason is checked first,
/// then whether the creator exists.
pub open spec fn create_blacklisted_creator_outcome(
    s: StoreState,
    creator_id: int,
    reason: Seq<char>,
    date: Seq<char>,
) -> Result<(), CrudError> {
    if !is_plain_text(reason) {
        Err(CrudError::InvalidReason)
    } else if !s.creators.has_id(creator_id) {
        Err(CrudError::InvalidCreatorId)
    } else if !s.blacklisted_creators.has_room() {
        Err(CrudError::TableFull)
    } else {
        Ok(())
    }
}

/// The store after `create_blacklisted_creator`: one more blacklist row on
/// success, no change on any error.
pub open spec fn create_blacklisted_creator_effect(
    s: StoreState,
    creator_id: int,
    reason: Seq<char>,
    date: Seq<char>,
) -> StoreState {
    if create_blacklisted_creator_outcome(s, creator_id, reason, date) is Ok {
        StoreState {
            blacklisted_creators: s.blacklisted_creators.inserted(
                BlacklistModel { creator_id, reason, date },
            ),
            ..s
        }
    } else {
        s
    }
}

/// Blacklists creator `creator_id` for `reason`.
///
/// The reason must be plain text and the creator must exist: the store keeps
/// no foreign key of its own, so this check is the only one there is.
pub fn create_blacklisted_creator(store: &mut Store, creator_id: i32, reason: String, date: String) -> (r:
    Result<(), CrudError>)
    requires
        old(store)@.wf(),
    ensures
        final(store)@.wf(),
        r == create_blacklisted_creator_outcome(old(store)@, creator_id as int, reason@, date@),
        final(store)@ == create_blacklisted_creator_effect(
            old(store)@,
            creator_id as int,
            reason@,
            date@,
        ),
{
    let data = match check_blacklisted_creator(creator_id, reason, date) {
        Ok(data) => data,
        Err(e) => {
            return Err(e);
        },
    };
    let creator_exists = store.creators.position(creator_id).is_some();
    if !creator_exists {
        return Err(CrudError::InvalidCreatorId);
    }
    match store.blacklisted_creators.insert(data) {
        Some(_) => Ok(()),
        None => Err(CrudError::TableFull),
    }
}

/// A blacklist row with the name of its creator.
pub open spec fn joined_row(b: RowView<BlacklistModel>, c: CreatorModel) -> BlacklistedCreatorView {
    BlacklistedCreatorView {
        id: b.id,
        creator_id: b.data.creator_id,
        reason: b.data.reason,
        date: b.data.date,
        name: c.name,
    }
}

/// A blacklist row with the name of its creator, or nothing when the creator
/// is gone.
pub open spec fn join_with(creators: TableView<CreatorModel>) -> spec_fn(
    RowView<BlacklistModel>,
) -> Option<BlacklistedCreatorView> {
    |b: RowView<BlacklistModel>|
        match creators.lookup(b.data.creator_id) {
            Some(c) => Some(joined_row(b, c)),
            None => None,
        }
}

/// The blacklist rows whose creator exists, oldest first, each with the
/// name of its creator. A row whose creator is gone is left out.
pub open spec fn joined(
    rows: Seq<RowView<BlacklistModel>>,
    creators: TableView<CreatorModel>,
) -> Seq<BlacklistedCreatorView> {
    rows.filter_map(join_with(creators))
}

/// Returns the blacklist, each row with the name its creator has now.
///
/// Rows whose creator has been deleted are not returned, though they are
/// still stored.
pub fn read_blacklisted_creators(store: &Store) -> (r: Vec<BlacklistedCreator>)
    requires
        store@.wf(),
    ensures
        views(r@) == joined(store@.blacklisted_creators.rows, store@.creators),
{
    let table = &store.blacklisted_creators;
    let creators = &store.creators;
    let mut out: Vec<BlacklistedCreator> = Vec::new();
    let mut i: usize = 0;
    assert(table@.rows.take(0) =~= Seq::empty());
    assert(views(out@) =~= Seq::empty());
    while i < table.len()
        invariant
            0 <= i <= table@.rows.len(),
            creators@.wf(),
            views(out@) == joined(table@.rows.take(i as int), creators@),
        decreases table@.rows.len() - i,
    {
        let entry = table.entry(i);
        let ghost prefix = table@.rows.take(i as int + 1);
        assert(prefix.drop_last() =~= table@.rows.take(i as int));
        assert(prefix.last() == table@.rows[i as int]);
        match creators.position(entry.data.creator_id) {
            Some(j) => {
                let creator = creators.entry(j);
                let row = BlacklistedCreator {
                    id: entry.id,
                    creator_id: entry.data.creator_id,
                    reason: entry.data.reason.clone(),
                    date: entry.data.date.clone(),
                    name: creator.data.name.clone(),
                };
                assert(row@ == joined_row(table@.rows[i as int], creators@.rows[j as int].data));
                let ghost before = out@;
                out.push(row);
                assert(views(out@) =~= views(before) + seq![row@]);
            },
            None => {},
        }
        i = i + 1;
    }
    assert(table@.rows.take(i as int) =~= table@.rows);
    out
}

/// What `update_blacklisted_creator` returns: the two identifiers are
/// checked first, then the reason, then whether the row exists. Whether the
/// creator exists is not checked.
pub open spec fn update_blacklisted_creator_outcome(
    s: StoreState,
    id: int,
    creator_id: int,
    reason: Seq<char>,
    date: Seq<char>,
) -> Result<(), CrudError> {
    if id <= 0 || creator_id <= 0 {
        Err(CrudError::InvalidId)
    } else if !is_plain_text(reason) {
        Err(CrudError::InvalidReason)
    } else if !s.blacklisted_creators.has_id(id) {
        Err(CrudError::BlacklistedCreatorNotFound)
    } else {
        Ok(())
    }
}

/// The store after `update_blacklisted_creator`: the row replaced as a whole
/// on success, no change on any error.
pub open spec fn update_blacklisted_creator_effect(
    s: StoreState,
    id: int,
    creator_id: int,
    reason: Seq<char>,
    date: Seq<char>,
) -> StoreState {
    if update_blacklisted_creator_outcome(s, id, creator_id, reason, date) is Ok {
        StoreState {
            blacklisted_creators: s.blacklisted_creators.replaced(
                id,
                BlacklistModel { creator_id, reason, date },
            ),
            ..s
        }
    } else {
        s
    }
}

/// Replaces every field of blacklist row `id`.
pub fn update_blacklisted_creator(
    store: &mut Store,
    id: i32,
    creator_id: i32,
    reason: String,
    date: String,
) -> (r: Result<(), CrudError>)
    requires
        old(store)@.wf(),
    ensures
        final(store)@.wf(),
        r == update_blacklisted_creator_outcome(
            old(store)@,
            id as int,
            creator_id as int,
            reason@,
            date@,
        ),
        final(store)@ == update_blacklisted_creator_effect(
            old(store)@,
            id as int,
            creator_id as int,
            reason@,
            date@,
        ),
{
    let safe_id = match positive_id(id) {
        Ok(n) => n,
        Err(e) => {
            return Err(e);
        },
    };
    let safe_creator_id = match positive_id(creator_id) {
        Ok(n) => n,
        Err(e) => {
            return Err(e);
        },
    };
    let data = match check_blacklisted_creator(safe_creator_id, reason, date) {
        Ok(data) => data,
        Err(e) => {
            return Err(e);
        },
    };
    let rows_affected = store.blacklisted_creators.replace(safe_id, data);
    if rows_affected == 0 {
        return Err(CrudError::BlacklistedCreatorNotFound);
    }
    Ok(())
}

/// What `delete_blacklisted_creator` returns.
pub open spec fn delete_blacklisted_creator_outcome(s: StoreState, id: int) -> Result<(), CrudError> {
    if id <= 0 {
        Err(CrudError::InvalidId)
    } else if !s.blacklisted_creators.has_id(id) {
        Err(CrudError::BlacklistedCreatorNotFound)
    } else {
        Ok(())
    }
}

/// The store after `delete_blacklisted_creator`: for a positive identifier
/// the row is gone and the counter of the table is reset, even when the row
/// was not found.
pub open spec fn delete_blacklisted_creator_effect(s: StoreState, id: int) -> StoreState {
    if id <= 0 {
        s
    } else {
        StoreState { blacklisted_creators: s.blacklisted_creators.deleted(id), ..s }
    }
}

/// Deletes blacklist row `id` and resets the counter of the table.
pub fn delete_blacklisted_creator(store: &mut Store, id: i32) -> (r: Result<(), CrudError>)
    requires
        old(store)@.wf(),
    ensures
        final(store)@.wf(),
        r == delete_blacklisted_creator_outcome(old(store)@, id as int),
        final(store)@ == delete_blacklisted_creator_effect(old(store)@, id as int),
{
    let safe_id = match positive_id(id) {
        Ok(n) => n,
        Err(e) => {
            return Err(e);
        },
    };
    let rows_affected = store.blacklisted_creators.delete(safe_id);
    if rows_affected == 0 {
        return Err(CrudError::BlacklistedCreatorNotFound);
    }
    Ok(())
}

/// What is wrong with the fields of a link, if anything: the URL is checked
/// first, then the source.
pub open spec fn link_fields_error(url: Seq<char>, source: Seq<char>) -> Option<CrudError> {
    if !is_absolute_url(url) {
        Some(CrudError::InvalidUrl)
    } else if !is_plain_text(source) {
        Some(CrudError::InvalidSource)
    } else {
        None
    }
}

/// Validates the fields of a link and packs them for the store: the URL
/// must be absolute and the source plain text, which the empty source is.
pub fn check_interesting_link(url: String, source: String, downloaded: bool, date: Option<String>) -> (r:
    Result<LinkData, CrudError>)
    ensures
        match r {
            Ok(data) => link_fields_error(url@, source@) is None && data@ == (LinkModel {
                url: url@,
                source: Some(source@),
                downloaded,
                date: text_of(date),
            }),
            Err(e) => link_fields_error(url@, source@) == Some(e),
        },
{
    let safe_url = match sanitize_urls(url.as_str()) {
        Some(text) => text,
        None => {
            return Err(CrudError::InvalidUrl);
        },
    };
    let safe_source = match sanitize_input(source.as_str()) {
        Some(text) => text,
        None => {
            return Err(CrudError::InvalidSource);
        },
    };
    Ok(LinkData { url: safe_url, source: Some(safe_source), downloaded, date })
}

/// What `create_interesting_link` returns: the fields are checked first,
/// then whether the table has room.
pub open spec fn create_interesting_link_outcome(
    s: StoreState,
    url: Seq<char>,
    source: Seq<char>,
    downloaded: bool,
    date: Option<Seq<char>>,
) -> Result<(), CrudError> {
    match link_fields_error(url, source) {
        Some(e) => Err(e),
        None => if s.interesting_links.has_room() {
            Ok(())
        } else {
            Err(CrudError::TableFull)
        },
    }
}

/// The store after `create_interesting_link`: one more link on success, no
/// change on any error.
pub open spec fn create_interesting_link_effect(
    s: StoreState,
    url: Seq<char>,
    source: Seq<char>,
    downloaded: bool,
    date: Option<Seq<char>>,
) -> StoreState {
    if create_interesting_link_outcome(s, url, source, downloaded, date) is Ok {
        StoreState {
            interesting_links: s.interesting_links.inserted(
                LinkModel { url, source: Some(source), downloaded, date },
            ),
            ..s
        }
    } else {
        s
    }
}

/// Queues a link.
///
/// The URL must be absolute and the source plain text; otherwise nothing is
/// written. `downloaded` is stored as given.
pub fn create_interesting_link(
    store: &mut Store,
    url: String,
    source: String,
    downloaded: bool,
    date: Option<String>,
) -> (r: Result<(), CrudError>)
    requires
        old(store)@.wf(),
    ensures
        final(store)@.wf(),
        r == create_interesting_link_outcome(old(store)@, url@, source@, downloaded, text_of(date)),
        final(store)@ == create_interesting_link_effect(
            old(store)@,
            url@,
            source@,
            downloaded,
            text_of(date),
        ),
{
    let data = match check_interesting_link(url, source, downloaded, date) {
        Ok(data) => data,
        Err(e) => {
            return Err(e);
        },
    };
    match store.interesting_links.insert(data) {
        Some(_) => Ok(()),
        None => Err(CrudError::TableFull),
    }
}

/// Returns every interesting link, oldest first.
pub fn read_interesting_links(store: &Store) -> (r: Vec<InterestingLink>)
    ensures
        views(r@) == store@.interesting_links.rows,
{
    let table = &store.interesting_links;
    let mut out: Vec<InterestingLink> = Vec::new();
    let mut i: usize = 0;
    while i < table.len()
        invariant
            0 <= i <= table@.rows.len(),
            out@.len() == i,
            views(out@) == table@.rows.take(i as int),
        decreases table@.rows.len() - i,
    {
        let entry = table.entry(i);
        let row = InterestingLink {
            id: entry.id,
            url: entry.data.url.clone(),
            source: copy_text(&entry.data.source),
            downloaded: entry.data.downloaded,
            date: copy_text(&entry.data.date),
        };
        assert(row@ == table@.rows[i as int]);
        let ghost before = out@;
        out.push(row);
        assert forall|k: int| 0 <= k <= i implies views(out@)[k] == table@.rows[k] by {
            if k < i {
                assert(views(before)[k] == table@.rows.take(i as int)[k]);
            }
        }
        assert(views(out@) =~= table@.rows.take(i as int + 1));
        i = i + 1;
    }
    assert(table@.rows.take(i as int) =~= table@.rows);
    out
}

/// What `update_interesting_link` returns: the identifier is checked first,
/// then the fields, then whether the row exists.
pub open spec fn update_interesting_link_outcome(
    s: StoreState,
    id: int,
    url: Seq<char>,
    source: Seq<char>,
    downloaded: bool,
    date: Option<Seq<char>>,
) -> Result<(), CrudError> {
    if id <= 0 {
        Err(CrudError::InvalidId)
    } else {
        match link_fields_error(url, source) {
            Some(e) => Err(e),
            None => if s.interesting_links.has_id(id) {
                Ok(())
            } else {
                Err(CrudError::InterestingLinkNotFound)
            },
        }
    }
}

/// The store after `update_interesting_link`: the row replaced as a whole
/// on success, no change on any error.
pub open spec fn update_interesting_link_effect(
    s: StoreState,
    id: int,
    url: Seq<char>,
    source: Seq<char>,
    downloaded: bool,
    date: Option<Seq<char>>,
) -> StoreState {
    if update_interesting_link_outcome(s, id, url, source, downloaded, date) is Ok {
        StoreState {
            interesting_links: s.interesting_links.replaced(
                id,
                LinkModel { url, source: Some(source), downloaded, date },
            ),
            ..s
        }
    } else {
        s
    }
}

/// Replaces every field of link `id`. `downloaded` may go from true back to
/// false: no transition is refused.
pub fn update_interesting_link(
    store: &mut Store,
    id: i32,
    url: String,
    source: String,
    downloaded: bool,
    date: Option<String>,
) -> (r: Result<(), CrudError>)
    requires
        old(store)@.wf(),
    ensures
        final(store)@.wf(),
        r == update_interesting_link_outcome(
            old(store)@,
            id as int,
            url@,
            source@,
            downloaded,
            text_of(date),
        ),
        final(store)@ == update_interesting_link_effect(
            old(store)@,
            id as int,
            url@,
            source@,
            downloaded,
            text_of(date),
        ),
{
    let safe_id = match positive_id(id) {
        Ok(n) => n,
        Err(e) => {
            return Err(e);
        },
    };
    let data = match check_interesting_link(url, source, downloaded, date) {
        Ok(data) => data,
        Err(e) => {
            return Err(e);
        },
    };
    let rows_affected = store.interesting_links.replace(safe_id, data);
    if rows_affected == 0 {
        return Err(CrudError::InterestingLinkNotFound);
    }
    Ok(())
}

/// What `delete_interesting_link` returns.
pub open spec fn delete_interesting_link_outcome(s: StoreState, id: int) -> Result<(), CrudError> {
    if id <= 0 {
        Err(CrudError::InvalidId)
    } else if !s.interesting_links.has_id(id) {
        Err(CrudError::InterestingLinkNotFound)
    } else {
        Ok(())
    }
}

/// The store after `delete_interesting_link`: for a positive identifier the
/// row is gone and the counter of the table is reset, even when the row was
/// not found.
pub open spec fn delete_interesting_link_effect(s: StoreState, id: int) -> StoreState {
    if id <= 0 {
        s
    } else {
        StoreState { interesting_links: s.interesting_links.deleted(id), ..s }
    }
}

/// Deletes link `id` and resets the counter of the table.
pub fn delete_interesting_link(store: &mut Store, id: i32) -> (r: Result<(), CrudError>)
    requires
        old(store)@.wf(),
    ensures
        final(store)@.wf(),
        r == delete_interesting_link_outcome(old(store)@, id as int),
        final(store)@ == delete_interesting_link_effect(old(store)@, id as int),
{
    let safe_id = match positive_id(id) {
        Ok(n) => n,
        Err(e) => {
            return Err(e);
        },
    };
    let rows_affected = store.interesting_links.delete(safe_id);
    if rows_affected == 0 {
        return Err(CrudError::InterestingLinkNotFound);
    }
    Ok(())
}

} // verus!
