use vstd::prelude::*;

verus! {

/// One account and what is kept for it.
#[derive(Clone, Debug)]
pub struct Entry<T> {
    pub account: String,
    pub value: T,
}

/// An `Entry` as a mathematical value: texts and sequences in place of strings and
/// vectors.
pub struct EntryView<T> {
    pub account: Seq<char>,
    pub value: T,
}

impl<T: DeepView> View for Entry<T> {
    type V = EntryView<T::V>;

    open spec fn view(&self) -> EntryView<T::V> {
        EntryView { account: self.account@, value: self.value.deep_view() }
    }
}

/// Whether `i` is the first position at which the book names the account.
pub open spec fn is_first<T>(book: Seq<EntryView<T>>, account: Seq<char>, i: int) -> bool {
    &&& 0 <= i < book.len()
    &&& book[i].account == account
    &&& forall|j: int| 0 <= j < i ==> (#[trigger] book[j]).account != account
}

/// Whether the book has an entry for the account.
pub open spec fn holds<T>(book: Seq<EntryView<T>>, account: Seq<char>) -> bool {
    exists|i: int| is_first(book, account, i)
}

/// Where the book has its entry for the account, if it has one.
pub open spec fn position<T>(book: Seq<EntryView<T>>, account: Seq<char>) -> int {
    choose|i: int| is_first(book, account, i)
}

/// What the book keeps for the account.
pub open spec fn lookup<T>(book: Seq<EntryView<T>>, account: Seq<char>) -> Option<T> {
    if holds(book, account) {
        Some(book[position(book, account)].value)
    } else {
        None
    }
}

/// The book after a value is kept for the account: its entry is replaced where it stands,
/// or a new entry is added at the end.
pub open spec fn saved<T>(book: Seq<EntryView<T>>, account: Seq<char>, value: T) -> Seq<
    EntryView<T>,
> {
    if holds(book, account) {
        book.update(position(book, account), EntryView { account, value })
    } else {
        book.push(EntryView { account, value })
    }
}

/// No account has two entries.
pub open spec fn distinct<T>(book: Seq<EntryView<T>>) -> bool {
    forall|i: int, j: int|
        0 <= i < j < book.len() ==> (#[trigger] book[i]).account != (#[trigger] book[j]).account
}

/// The account's first entry stands at one place only.
pub proof fn lemma_first_is_position<T>(book: Seq<EntryView<T>>, account: Seq<char>, i: int)
    requires
        is_first(book, account, i),
    ensures
        holds(book, account),
        position(book, account) == i,
{
    let p = position(book, account);
    assert(is_first(book, account, p));
    if p < i {
        assert(book[p].account != account);
    }
    if i < p {
        assert(book[i].account != account);
    }
}

/// A book without an entry for an account names it nowhere.
pub proof fn lemma_no_entry<T>(book: Seq<EntryView<T>>, account: Seq<char>, j: int)
    requires
        !holds(book, account),
        0 <= j < book.len(),
    ensures
        book[j].account != account,
    decreases j,
{
    if book[j].account == account {
        if forall|k: int| 0 <= k < j ==> (#[trigger] book[k]).account != account {
            assert(is_first(book, account, j));
        } else {
            let k = choose|k: int| 0 <= k < j && (#[trigger] book[k]).account == account;
            lemma_no_entry(book, account, k);
        }
    }
}

/// Keeping a value for an account makes it that account's value and leaves every other
/// account's as it was.
pub proof fn lemma_saved<T>(book: Seq<EntryView<T>>, account: Seq<char>, value: T)
    ensures
        lookup(saved(book, account, value), account) == Some(value),
        forall|other: Seq<char>|
            other != account ==> #[trigger] lookup(saved(book, account, value), other) == lookup(
                book,
                other,
            ),
{
    let after = saved(book, account, value);
    assert(after.len() >= book.len());
    assert(forall|j: int|
        0 <= j < book.len() ==> (#[trigger] after[j]).account == book[j].account);
    if holds(book, account) {
        let p = position(book, account);
        assert(is_first(book, account, p));
        assert(is_first(after, account, p));
        lemma_first_is_position(after, account, p);
    } else {
        let n = book.len() as int;
        assert forall|j: int| 0 <= j < n implies (#[trigger] after[j]).account != account by {
            lemma_no_entry(book, account, j);
        }
        assert(is_first(after, account, n));
        lemma_first_is_position(after, account, n);
    }
    assert forall|other: Seq<char>| other != account implies #[trigger] lookup(after, other)
        == lookup(book, other) by {
        if holds(book, other) {
            let q = position(book, other);
            assert(is_first(book, other, q));
            assert(is_first(after, other, q));
            lemma_first_is_position(after, other, q);
        } else if holds(after, other) {
            let q = position(after, other);
            assert(is_first(after, other, q));
            assert(q < book.len());
            assert forall|j: int| 0 <= j < q implies (#[trigger] book[j]).account != other by {
                assert(after[j].account != other);
            }
            assert(is_first(book, other, q));
        }
    }
}

/// Keeping a value for an account gives no account a second entry.
pub proof fn lemma_saved_distinct<T>(book: Seq<EntryView<T>>, account: Seq<char>, value: T)
    requires
        distinct(book),
    ensures
        distinct(saved(book, account, value)),
{
    let after = saved(book, account, value);
    if holds(book, account) {
        let at = position(book, account);
        assert(is_first(book, account, at));
        assert forall|i: int, j: int| 0 <= i < j < after.len() implies (#[trigger] after[i]).account
            != (#[trigger] after[j]).account by {
            assert(after[i].account == book[i].account);
            assert(after[j].account == book[j].account);
        }
    } else {
        assert forall|i: int, j: int| 0 <= i < j < after.len() implies (#[trigger] after[i]).account
            != (#[trigger] after[j]).account by {
            if j == book.len() {
                lemma_no_entry(book, account, i);
                assert(after[i].account == book[i].account);
            } else {
                assert(after[i].account == book[i].account);
                assert(after[j].account == book[j].account);
            }
        }
    }
}

/// Values kept by account. An account that was never written has no entry. The book is
/// seen as the list of its entries, each value as the mathematical value it stands for.
#[derive(Clone, Debug)]
pub struct Book<T> {
    entries: Vec<Entry<T>>,
}

impl<T: DeepView> View for Book<T> {
    type V = Seq<EntryView<T::V>>;

    closed spec fn view(&self) -> Seq<EntryView<T::V>> {
        self.entries@.map_values(|e: Entry<T>| e@)
    }
}

impl<T: DeepView> Book<T> {
    /// A book without entries.
    pub fn new() -> (r: Self)
        ensures
            r@ == Seq::<EntryView<T::V>>::empty(),
    {
        let r = Book { entries: Vec::new() };
        assert(r.entries@.map_values(|e: Entry<T>| e@) =~= Seq::<EntryView<T::V>>::empty());
        r
    }

    /// How many accounts the book has an entry for.
    pub fn len(&self) -> (r: usize)
        ensures
            r == self@.len(),
    {
        self.entries.len()
    }

    /// The entry at a position, if the book has that many.
    pub fn entry(&self, i: usize) -> (r: Option<&Entry<T>>)
        ensures
            match r {
                Some(e) => i < self@.len() && e@ == self@[i as int],
                None => i >= self@.len(),
            },
    {
        if i < self.entries.len() {
            Some(&self.entries[i])
        } else {
            None
        }
    }

    /// What is kept for the account, if anything.
    pub fn load(&self, account: &String) -> (r: Option<&T>)
        ensures
            match r {
                Some(v) => lookup(self@, account@) == Some(v.deep_view()),
                None => lookup(self@, account@) is None,
            },
    {
        let mut i: usize = 0;
        while i < self.entries.len()
            invariant
                i <= self.entries.len(),
                forall|j: int| 0 <= j < i ==> (#[trigger] self@[j]).account != account@,
                self@.len() == self.entries.len(),
                forall|j: int| 0 <= j < self.entries.len() ==> self@[j] == self.entries@[j]@,
            decreases self.entries.len() - i,
        {
            if self.entries[i].account == *account {
                proof {
                    assert(is_first(self@, account@, i as int));
                    lemma_first_is_position(self@, account@, i as int);
                }
                return Some(&self.entries[i].value);
            }
            i = i + 1;
        }
        proof {
            if holds(self@, account@) {
                assert(is_first(self@, account@, position(self@, account@)));
            }
        }
        None
    }

    /// Keeps a value for the account.
    pub fn save(&mut self, account: &String, value: T)
        ensures
            final(self)@ == saved(old(self)@, account@, value.deep_view()),
    {
        let mut i: usize = 0;
        while i < self.entries.len()
            invariant
                i <= self.entries.len(),
                *self == *old(self),
                forall|j: int| 0 <= j < i ==> (#[trigger] self@[j]).account != account@,
                self@.len() == self.entries.len(),
                forall|j: int| 0 <= j < self.entries.len() ==> self@[j] == self.entries@[j]@,
            decreases self.entries.len() - i,
        {
            if self.entries[i].account == *account {
                proof {
                    assert(is_first(self@, account@, i as int));
                    lemma_first_is_position(self@, account@, i as int);
                }
                let entry = Entry { account: account.clone(), value };
                self.entries.set(i, entry);
                assert(self@ =~= saved(old(self)@, account@, value.deep_view()));
                return ;
            }
            i = i + 1;
        }
        proof {
            if holds(self@, account@) {
                assert(is_first(self@, account@, position(self@, account@)));
            }
        }
        let entry = Entry { account: account.clone(), value };
        self.entries.push(entry);
        assert(self@ =~= saved(old(self)@, account@, value.deep_view()));
    }
}

} // verus!
