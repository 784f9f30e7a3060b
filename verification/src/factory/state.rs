use crate::book::{lookup, Book, EntryView};
use crate::packages::factory::{
    Details, DetailsView, Statistics, TempInformation, TempInformationView,
};
use crate::text::texts;
use vstd::prelude::*;

verus! {

/// A registry's persisted state.
#[derive(Clone, Debug)]
pub struct Storage {
    pub details: Details,
    pub statistics: Statistics,
    /// The market that is being created, until the next one is.
    pub temp_information: Option<TempInformation>,
    /// Every market, in the order of creation.
    pub markets: Vec<String>,
    /// The markets that are not resolved.
    pub active_markets: Vec<String>,
    /// The markets that are resolved, in the order of resolution.
    pub completed_markets: Vec<String>,
    /// The addresses at which the registry created a market.
    pub known_markets: Book<bool>,
    /// The volume traded, by market.
    pub volumes: Book<u128>,
    /// The accounts that ever traded.
    pub unique_wallets: Book<bool>,
    /// The media, by market.
    pub media: Book<Vec<String>>,
    /// Who is an admin.
    pub admins_map: Book<bool>,
    /// The points that accounts earned by placing orders.
    pub incentives: Book<u64>,
}

/// A `Storage` as a mathematical value: texts and sequences in place of strings and
/// vectors.
pub struct StorageView {
    pub details: DetailsView,
    pub statistics: Statistics,
    pub temp_information: Option<TempInformationView>,
    pub markets: Seq<Seq<char>>,
    pub active_markets: Seq<Seq<char>>,
    pub completed_markets: Seq<Seq<char>>,
    pub known_markets: Seq<EntryView<bool>>,
    pub volumes: Seq<EntryView<u128>>,
    pub unique_wallets: Seq<EntryView<bool>>,
    pub media: Seq<EntryView<Seq<Seq<char>>>>,
    pub admins_map: Seq<EntryView<bool>>,
    pub incentives: Seq<EntryView<u64>>,
}

impl View for Storage {
    type V = StorageView;

    open spec fn view(&self) -> StorageView {
        StorageView {
            details: self.details@,
            statistics: self.statistics,
            temp_information: match self.temp_information {
                Some(t) => Some(t@),
                None => None,
            },
            markets: texts(self.markets@),
            active_markets: texts(self.active_markets@),
            completed_markets: texts(self.completed_markets@),
            known_markets: self.known_markets@,
            volumes: self.volumes@,
            unique_wallets: self.unique_wallets@,
            media: self.media@,
            admins_map: self.admins_map@,
            incentives: self.incentives@,
        }
    }
}

/// What a call on the registry works on.
#[derive(Clone, Debug)]
pub struct Deps {
    pub storage: Storage,
}

impl View for Deps {
    type V = StorageView;

    open spec fn view(&self) -> StorageView {
        self.storage@
    }
}

/// Whether the book marks the account.
pub open spec fn flagged(book: Seq<EntryView<bool>>, account: Seq<char>) -> bool {
    lookup(book, account) == Some(true)
}

/// Whether the book marks the account.
pub fn flag(book: &Book<bool>, account: &String) -> (r: bool)
    ensures
        r == flagged(book@, account@),
{
    match book.load(account) {
        Some(b) => *b,
        None => false,
    }
}

/// The registry's counts are the lengths of its lists.
pub open spec fn counted(storage: StorageView) -> bool {
    &&& storage.statistics.total_pools == storage.markets.len()
    &&& storage.statistics.active_events == storage.active_markets.len()
    &&& storage.statistics.completed_events == storage.completed_markets.len()
}

} // verus!
