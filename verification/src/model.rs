//! The rows of the three tables, as stored and as handed to callers, each
//! with its mathematical model.

use vstd::prelude::*;
use crate::table::RowView;
use crate::validate::{is_absolute_url, is_plain_text, is_rate};

verus! {

/// The model of an optional text.
pub open spec fn text_of(s: Option<String>) -> Option<Seq<char>> {
    match s {
        Some(t) => Some(t@),
        None => None,
    }
}

/// The model of what a creator row holds besides its identifier.
pub struct CreatorModel {
    pub name: Seq<char>,
    pub homepage: Seq<char>,
    pub rate: int,
}

impl CreatorModel {
    /// Whether these are the fields of a creator: a name that is not empty
    /// and is plain text, a homepage that is an absolute URL, and a rating in
    /// `0..=10`.
    pub open spec fn valid(self) -> bool {
        &&& self.name.len() > 0
        &&& is_plain_text(self.name)
        &&& is_absolute_url(self.homepage)
        &&& is_rate(self.rate)
    }
}

/// What a creator row holds besides its identifier.
#[derive(Clone, Debug, PartialEq, Eq)]
pub struct CreatorData {
    pub name: String,
    pub homepage: String,
    pub rate: i32,
}

impl View for CreatorData {
    type V = CreatorModel;

    open spec fn view(&self) -> CreatorModel {
        CreatorModel { name: self.name@, homepage: self.homepage@, rate: self.rate as int }
    }
}

/// A tracked content source with a homepage and a rating.
#[derive(Clone, Debug, PartialEq, Eq)]
pub struct Creator {
    pub id: i32,
    pub name: String,
    pub homepage: String,
    pub rate: i32,
}

impl View for Creator {
    type V = RowView<CreatorModel>;

    open spec fn view(&self) -> RowView<CreatorModel> {
        RowView {
            id: self.id as int,
            data: CreatorModel {
                name: self.name@,
                homepage: self.homepage@,
                rate: self.rate as int,
            },
        }
    }
}

/// The model of what a blacklist row holds besides its identifier.
pub struct BlacklistModel {
    pub creator_id: int,
    pub reason: Seq<char>,
    pub date: Seq<char>,
}

/// What a blacklist row holds besides its identifier.
#[derive(Clone, Debug, PartialEq, Eq)]
pub struct BlacklistData {
    pub creator_id: i32,
    pub reason: String,
    pub date: String,
}

impl View for BlacklistData {
    type V = BlacklistModel;

    open spec fn view(&self) -> BlacklistModel {
        BlacklistModel {
            creator_id: self.creator_id as int,
            reason: self.reason@,
            date: self.date@,
        }
    }
}

/// The model of a blacklist row joined with the name of its creator.
pub struct BlacklistedCreatorView {
    pub id: int,
    pub creator_id: int,
    pub reason: Seq<char>,
    pub date: Seq<char>,
    pub name: Seq<char>,
}

/// A blacklist row together with the name of the creator it excludes.
#[derive(Clone, Debug, PartialEq, Eq)]
pub struct BlacklistedCreator {
    pub id: i32,
    pub creator_id: i32,
    pub reason: String,
    pub date: String,
    pub name: String,
}

impl View for BlacklistedCreator {
    type V = BlacklistedCreatorView;

    open spec fn view(&self) -> BlacklistedCreatorView {
        BlacklistedCreatorView {
            id: self.id as int,
            creator_id: self.creator_id as int,
            reason: self.reason@,
            date: self.date@,
            name: self.name@,
        }
    }
}

/// The model of what a link row holds besides its identifier.
pub struct LinkModel {
    pub url: Seq<char>,
    pub source: Option<Seq<char>>,
    pub downloaded: bool,
    pub date: Option<Seq<char>>,
}

/// What a link row holds besides its identifier.
#[derive(Clone, Debug, PartialEq, Eq)]
pub struct LinkData {
    pub url: String,
    pub source: Option<String>,
    pub downloaded: bool,
    pub date: Option<String>,
}

impl View for LinkData {
    type V = LinkModel;

    open spec fn view(&self) -> LinkModel {
        LinkModel {
            url: self.url@,
            source: text_of(self.source),
            downloaded: self.downloaded,
            date: text_of(self.date),
        }
    }
}

/// A discovered URL queued for later download.
#[derive(Clone, Debug, PartialEq, Eq)]
pub struct InterestingLink {
    pub id: i32,
    pub url: String,
    /// Where the link was found; absent only in a row that was stored
    /// without one.
    pub source: Option<String>,
    pub downloaded: bool,
    pub date: Option<String>,
}

impl View for InterestingLink {
    type V = RowView<LinkModel>;

    open spec fn view(&self) -> RowView<LinkModel> {
        RowView {
            id: self.id as int,
            data: LinkModel {
                url: self.url@,
                source: text_of(self.source),
                downloaded: self.downloaded,
                date: text_of(self.date),
            },
        }
    }
}

/// Copies an optional text.
pub fn copy_text(s: &Option<String>) -> (r: Option<String>)
    ensures
        text_of(r) == text_of(*s),
{
    match s {
        Some(t) => Some(t.clone()),
        None => None,
    }
}

} // verus!
