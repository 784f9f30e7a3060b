use crate::book::{
    distinct, holds, is_first, lemma_saved, lookup, position, saved, Book, EntryView,
};
use crate::packages::market::{Information, InformationView, Order, Shares};
use vstd::prelude::*;

verus! {

/// One account's entry in a market's book, as a mathematical value.
pub type HolderView = EntryView<Shares>;

/// The holdings of every account that was ever credited in a market.
pub type ShareBook = Book<Shares>;

/// What the account holds: nothing, if the book has no entry for it.
pub open spec fn balance_of(book: Seq<HolderView>, account: Seq<char>) -> Shares {
    match lookup(book, account) {
        Some(shares) => shares,
        None => Shares::zero(),
    }
}

/// Setting an account's holdings gives that account the new holdings and leaves every
/// other account's as they were.
pub proof fn lemma_balance_after_save(book: Seq<HolderView>, account: Seq<char>, shares: Shares)
    ensures
        balance_of(saved(book, account, shares), account) == shares,
        forall|other: Seq<char>|
            other != account ==> #[trigger] balance_of(saved(book, account, shares), other)
                == balance_of(book, other),
{
    lemma_saved(book, account, shares);
    assert forall|other: Seq<char>| other != account implies #[trigger] balance_of(
        saved(book, account, shares),
        other,
    ) == balance_of(book, other) by {
        assert(lookup(saved(book, account, shares), other) == lookup(book, other));
    }
}

/// What the account holds in the book: nothing, if it was never credited.
pub fn balance(book: &ShareBook, account: &String) -> (r: Shares)
    ensures
        r == balance_of(book@, account@),
{
    match book.load(account) {
        Some(shares) => *shares,
        None => Shares::new(),
    }
}

/// The three things an account can hold in a market.
pub enum Holding {
    Yes,
    No,
    Liquidity,
}

/// How much of one thing the holdings have.
pub open spec fn amount_of(shares: Shares, kind: Holding) -> u128 {
    match kind {
        Holding::Yes => shares.yes_shares,
        Holding::No => shares.no_shares,
        Holding::Liquidity => shares.liquidity_shares,
    }
}

/// How much of one thing all the entries of a book hold together.
pub open spec fn total_held(book: Seq<HolderView>, kind: Holding) -> int
    decreases book.len(),
{
    if book.len() == 0 {
        0
    } else {
        total_held(book.drop_last(), kind) + amount_of(book.last().value, kind)
    }
}

/// Replacing an entry changes the total by the difference between the new and the old
/// entry.
pub proof fn lemma_total_after_update(
    book: Seq<HolderView>,
    at: int,
    entry: HolderView,
    kind: Holding,
)
    requires
        0 <= at < book.len(),
    ensures
        total_held(book.update(at, entry), kind) == total_held(book, kind) - amount_of(
            book[at].value,
            kind,
        ) + amount_of(entry.value, kind),
    decreases book.len(),
{
    let after = book.update(at, entry);
    if at == book.len() - 1 {
        assert(after.drop_last() =~= book.drop_last());
    } else {
        assert(after.drop_last() =~= book.drop_last().update(at, entry));
        lemma_total_after_update(book.drop_last(), at, entry, kind);
    }
}

/// Setting an account's holdings changes the total by the difference between the new and
/// the old holdings of that account.
pub proof fn lemma_total_after_save(
    book: Seq<HolderView>,
    account: Seq<char>,
    shares: Shares,
    kind: Holding,
)
    ensures
        total_held(saved(book, account, shares), kind) == total_held(book, kind) - amount_of(
            balance_of(book, account),
            kind,
        ) + amount_of(shares, kind),
{
    let entry = EntryView { account, value: shares };
    if holds(book, account) {
        let at = position(book, account);
        assert(is_first(book, account, at));
        lemma_total_after_update(book, at, entry, kind);
    } else {
        assert(book.push(entry).drop_last() =~= book);
    }
}

/// A market's persisted state: the record, the price history, oldest first, and the
/// holdings by account.
#[derive(Clone, Debug)]
pub struct Storage {
    pub information: Information,
    pub order_list: Vec<Order>,
    pub shares: ShareBook,
}

/// A `Storage` as a mathematical value: texts and sequences in place of strings and
/// vectors.
pub struct StorageView {
    pub information: InformationView,
    pub order_list: Seq<Order>,
    pub shares: Seq<HolderView>,
}

impl View for Storage {
    type V = StorageView;

    open spec fn view(&self) -> StorageView {
        StorageView {
            information: self.information@,
            order_list: self.order_list@,
            shares: self.shares@,
        }
    }
}

/// Every share that the record counts as outstanding is held by an account: for each of
/// Yes, No and liquidity the record's total is the sum of what the accounts hold, each
/// account counted once.
pub open spec fn backed(storage: StorageView) -> bool {
    &&& distinct(storage.shares)
    &&& storage.information.yes_shares == total_held(storage.shares, Holding::Yes)
    &&& storage.information.no_shares == total_held(storage.shares, Holding::No)
    &&& storage.information.liquidity_shares == total_held(storage.shares, Holding::Liquidity)
}

/// What the collaborators answered to the queries that the call may make. `None` stands for
/// a query that failed.
#[derive(Clone, Debug)]
pub struct Querier {
    /// Whether the registry counts the account that the call acts for among its admins.
    pub is_admin: Option<bool>,
    /// The account that the registry collects fees on.
    pub fees_address: Option<String>,
    /// How much settlement currency the market holds.
    pub balance: Option<u128>,
}

/// A `Querier` as a mathematical value: texts and sequences in place of strings and
/// vectors.
pub struct QuerierView {
    pub is_admin: Option<bool>,
    pub fees_address: Option<Seq<char>>,
    pub balance: Option<u128>,
}

impl View for Querier {
    type V = QuerierView;

    open spec fn view(&self) -> QuerierView {
        QuerierView {
            is_admin: self.is_admin,
            fees_address: match self.fees_address {
                Some(a) => Some(a@),
                None => None,
            },
            balance: self.balance,
        }
    }
}

/// What a call works on: the market's state and the collaborators' answers.
#[derive(Clone, Debug)]
pub struct Deps {
    pub storage: Storage,
    pub querier: Querier,
}

/// A `Deps` as a mathematical value: texts and sequences in place of strings and
/// vectors.
pub struct DepsView {
    pub storage: StorageView,
    pub querier: QuerierView,
}

impl View for Deps {
    type V = DepsView;

    open spec fn view(&self) -> DepsView {
        DepsView { storage: self.storage@, querier: self.querier@ }
    }
}

} // verus!
