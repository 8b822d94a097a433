//! A ledger-account resource model: balance, growable data buffer, and
//! explicit aliasing.
//!
//! All account storage lives in one `Ledger`; a `LedgerAccount` handle
//! carries only an identity into it.  Copying a handle therefore copies the
//! identity, not the storage: a mutation performed through either copy is
//! observed through the other, which is the shared-identity semantics the
//! model is for.  Each account holds a balance in indivisible units and a
//! data buffer with a live length inside an allocated region, so a shrink
//! followed by a grow without zero-filling may expose stale bytes — the
//! contract of `realloc` says nothing about them.

use vstd::prelude::*;

verus! {

/// The largest data buffer an account may hold, in bytes (ten mebibytes).
pub const MAX_ACCOUNT_DATA_LEN: usize = 10_485_760;

/// The error `realloc` returns when asked for more than
/// `MAX_ACCOUNT_DATA_LEN` bytes.
#[derive(Debug)]
pub struct CapacityError;

/// The ghost image of one account: its balance and the live bytes of its
/// data buffer.
pub ghost struct AccountView {
    pub lamports: u64,
    pub data: Seq<u8>,
}

/// One account's storage: balance, allocated region, live length.
struct AccountCell {
    lamports: u64,
    buf: Vec<u8>,
    len: usize,
}

impl AccountCell {
    spec fn wf(self) -> bool {
        self.len <= self.buf.len()
    }

    spec fn view_of(self) -> AccountView {
        AccountView { lamports: self.lamports, data: self.buf@.take(self.len as int) }
    }
}

/// A handle to one account of a ledger.  `clone` yields a handle that
/// aliases the same storage, not a copy of the account.
#[derive(Clone, Copy)]
pub struct LedgerAccount {
    id: usize,
}

impl LedgerAccount {
    /// The identity of the account this handle refers to.
    pub closed spec fn id(self) -> int {
        self.id as int
    }
}

/// The ordered collection of accounts.  All storage lives here; handles
/// carry only identities, so two handles with one identity alias one
/// account.
pub struct Ledger {
    cells: Vec<AccountCell>,
}

impl View for Ledger {
    type V = Seq<AccountView>;

    closed spec fn view(&self) -> Seq<AccountView> {
        self.cells@.map(|i: int, c: AccountCell| c.view_of())
    }
}

impl Ledger {
    /// Every account's live length fits its allocated region.
    pub closed spec fn wf(self) -> bool {
        forall|i: int| 0 <= i < self.cells@.len() ==> (#[trigger] self.cells@[i]).wf()
    }

    /// An empty ledger.
    pub fn new() -> (ledger: Ledger)
        ensures
            ledger.wf(),
            ledger@.len() == 0,
    {
        Ledger { cells: Vec::new() }
    }

    /// Append a fresh account with the given balance and data.  The handle
    /// returned is the first one naming the new account, so no two accounts
    /// are aliases of each other unless a handle is cloned.
    pub fn add_account(&mut self, lamports: u64, data: Vec<u8>) -> (acc: LedgerAccount)
        requires
            old(self).wf(),
        ensures
            final(self).wf(),
            acc.id() == old(self)@.len(),
            final(self)@ == old(self)@.push(AccountView { lamports, data: data@ }),
    {
        let id = self.cells.len();
        let len = data.len();
        let ghost dataview = data@;
        self.cells.push(AccountCell { lamports, buf: data, len });
        proof {
            assert(self.cells@[id as int].view_of().data =~= dataview);
            assert(self@ =~= old(self)@.push(AccountView { lamports, data: dataview }));
        }
        LedgerAccount { id }
    }

    /// How many accounts the ledger holds.
    pub fn account_count(&self) -> (n: usize)
        ensures
            n == self@.len(),
    {
        self.cells.len()
    }

    /// The account's balance.  Aliased handles observe the same value.
    pub fn lamports(&self, acc: LedgerAccount) -> (r: u64)
        requires
            acc.id() < self@.len(),
        ensures
            r == self@[acc.id()].lamports,
    {
        self.cells[acc.id].lamports
    }

    /// The live length of the account's data buffer.
    pub fn data_len(&self, acc: LedgerAccount) -> (r: usize)
        requires
            self.wf(),
            acc.id() < self@.len(),
        ensures
            r == self@[acc.id()].data.len(),
    {
        self.cells[acc.id].len
    }

    /// Whether the account's data buffer is empty.
    pub fn data_is_empty(&self, acc: LedgerAccount) -> (r: bool)
        requires
            self.wf(),
            acc.id() < self@.len(),
        ensures
            r == (self@[acc.id()].data.len() == 0),
    {
        self.cells[acc.id].len == 0
    }

    /// Grow or shrink the account's data buffer to exactly `new_len` bytes.
    /// The balance, the other accounts and the surviving prefix of the data
    /// are untouched; bytes added by a zero-filled grow are zero, bytes added
    /// without zero-filling are left unspecified (they may be stale data from
    /// a prior shrink).  Fails, changing nothing, exactly when `new_len`
    /// exceeds `MAX_ACCOUNT_DATA_LEN`.
    pub fn realloc(&mut self, acc: LedgerAccount, new_len: usize, zero_fill: bool) -> (r: Result<
        (),
        CapacityError,
    >)
        requires
            old(self).wf(),
            acc.id() < old(self)@.len(),
        ensures
            final(self).wf(),
            final(self)@.len() == old(self)@.len(),
            forall|j: int|
                0 <= j < old(self)@.len() && j != acc.id() ==> final(self)@[j] == old(self)@[j],
            final(self)@[acc.id()].lamports == old(self)@[acc.id()].lamports,
            new_len > MAX_ACCOUNT_DATA_LEN ==> (r is Err) && final(self)@ == old(self)@,
            new_len <= MAX_ACCOUNT_DATA_LEN ==> {
                &&& (r is Ok)
                &&& final(self)@[acc.id()].data.len() == new_len
                &&& forall|i: int|
                    0 <= i < new_len && i < old(self)@[acc.id()].data.len()
                        ==> final(self)@[acc.id()].data[i] == old(self)@[acc.id()].data[i]
                &&& zero_fill ==> forall|i: int|
                    old(self)@[acc.id()].data.len() <= i < new_len
                        ==> final(self)@[acc.id()].data[i] == 0
            },
    {
        if new_len > MAX_ACCOUNT_DATA_LEN {
            proof {
                assert(self@ =~= old(self)@);
            }
            return Err(CapacityError);
        }
        let ghost orig = self.cells@[acc.id() as int];
        let cell = &mut self.cells[acc.id];
        if new_len <= cell.len {
            cell.len = new_len;
        } else {
            while cell.buf.len() < new_len
                invariant
                    cell.lamports == orig.lamports,
                    cell.len == orig.len,
                    orig.wf(),
                    orig.buf@.len() <= cell.buf@.len(),
                    forall|j: int| 0 <= j < orig.buf@.len() ==> cell.buf@[j] == orig.buf@[j],
                decreases new_len - cell.buf@.len(),
            {
                cell.buf.push(0);
            }
            if zero_fill {
                let mut i = cell.len;
                while i < new_len
                    invariant
                        cell.lamports == orig.lamports,
                        cell.len == orig.len,
                        orig.wf(),
                        orig.len <= i <= new_len <= cell.buf@.len(),
                        forall|j: int| 0 <= j < orig.len ==> cell.buf@[j] == orig.buf@[j],
                        forall|j: int| orig.len <= j < i ==> cell.buf@[j] == 0,
                    decreases new_len - i,
                {
                    cell.buf[i] = 0;
                    i = i + 1;
                }
            }
            cell.len = new_len;
        }
        proof {
            assert forall|j: int|
                0 <= j < old(self)@.len() && j != acc.id() implies self@[j] == old(self)@[j] by {}
        }
        Ok(())
    }
}

/// An in-order cursor over a ledger's accounts: the accounts come out in
/// ledger order, each at most once per cursor.
pub struct AccountIter {
    pos: usize,
}

impl AccountIter {
    /// How many accounts the cursor has already handed out.
    pub closed spec fn pos(self) -> int {
        self.pos as int
    }

    /// A cursor standing before the first account.
    pub fn new() -> (it: AccountIter)
        ensures
            it.pos() == 0,
    {
        AccountIter { pos: 0 }
    }

    /// The handle of the next account in order, or nothing once every
    /// account has been handed out.
    pub fn next(&mut self, ledger: &Ledger) -> (r: Option<LedgerAccount>)
        ensures
            old(self).pos() < ledger@.len() ==> {
                &&& final(self).pos() == old(self).pos() + 1
                &&& (r matches Some(acc) && acc.id() == old(self).pos())
            },
            old(self).pos() >= ledger@.len() ==> (r is None) && final(self).pos() == old(self).pos(),
    {
        if self.pos < ledger.cells.len() {
            let acc = LedgerAccount { id: self.pos };
            self.pos = self.pos + 1;
            Some(acc)
        } else {
            None
        }
    }
}

/// A clone of an account handle aliases the account: the balance read
/// through the clone is the balance read through the source.  The balances
/// of two distinct accounts are independent; nothing relates them.
pub fn clone_accounts(ledger: &Ledger)
    requires
        ledger.wf(),
        ledger@.len() >= 2,
{
    let mut account_info_iter = AccountIter::new();
    let acc0 = account_info_iter.next(ledger).unwrap();
    let acc1 = account_info_iter.next(ledger).unwrap();
    let acc0_ = acc0.clone();

    let lamports0 = ledger.lamports(acc0);
    let _lamports1 = ledger.lamports(acc1);
    let lamports0_ = ledger.lamports(acc0_);

    assert(lamports0_ == lamports0);
}

/// Growing an empty account to 1024 bytes and then, zero-filled, to 2048:
/// the observed length tracks every reallocation exactly, and the bytes the
/// zero-filled grow added are zero.
pub fn init_accounts(ledger: &mut Ledger)
    requires
        old(ledger).wf(),
        old(ledger)@.len() >= 1,
        old(ledger)@[0].data.len() == 0,
    ensures
        final(ledger).wf(),
        final(ledger)@.len() == old(ledger)@.len(),
        final(ledger)@[0].data.len() == 2048,
        forall|i: int| 1024 <= i < 2048 ==> final(ledger)@[0].data[i] == 0,
{
    let mut account_info_iter = AccountIter::new();
    let acc0 = account_info_iter.next(ledger).unwrap();

    let is_empty = ledger.data_is_empty(acc0);
    assert(is_empty);

    let r1 = ledger.realloc(acc0, 1024, false);
    assert(r1 is Ok);
    let len1 = ledger.data_len(acc0);
    assert(len1 > 0);
    assert(len1 == 1024);

    let r2 = ledger.realloc(acc0, 2048, true);
    assert(r2 is Ok);
    let len2 = ledger.data_len(acc0);
    assert(len2 == 2048);
}

/// Account aliasing, through mutation: after a `realloc` performed through
/// one handle, the clone made before the mutation observes the new length,
/// because both handles name the same storage.
pub fn rule_account_aliasing(
    ledger: &mut Ledger,
    acc: LedgerAccount,
    new_len: usize,
    zero_fill: bool,
) -> (observed: usize)
    requires
        old(ledger).wf(),
        acc.id() < old(ledger)@.len(),
        new_len <= MAX_ACCOUNT_DATA_LEN,
    ensures
        observed == new_len,
{
    let acc2 = acc.clone();
    let r = ledger.realloc(acc, new_len, zero_fill);
    assert(r is Ok);
    let observed = ledger.data_len(acc2);
    assert(observed == new_len);
    observed
}

} // verus!
