//! The transaction ledger: the one durable mapping of the workflow.
//!
//! Each successful authority request is recorded exactly once under the
//! authority the gateway issued, together with the comma-joined client
//! names and the exact amount requested; the verify workflow later reads
//! that record back and presents the persisted amount — never a recomputed
//! one — to the gateway.  Records are only ever appended and looked up by
//! authority, never updated or deleted.  [`MemoryLedger`] is the library's
//! verified implementation; a driver over durable storage can implement the
//! same trait outside the library.

use crate::payment::unit_result_view;
use vstd::prelude::*;
use vstd::string::*;

verus! {

/// One write attempted on a ledger: the record offered and the answer.
pub struct LedgerWriteEvent {
    pub authority: Seq<char>,
    pub names: Seq<char>,
    pub amount: u32,
    pub date: Seq<char>,
    pub outcome: Result<(), Seq<char>>,
}

/// Capability to persist and look up transactions by authority.
pub trait Ledger: Sized {
    /// The current contents: authority to (joined names, amount).
    /// The default is the empty table; every implementation the library
    /// reasons about overrides it with its own contents.
    open spec fn table(&self) -> Map<Seq<char>, (Seq<char>, u32)> {
        Map::empty()
    }

    /// All writes attempted on this ledger so far, oldest first.
    open spec fn writes(&self) -> Seq<LedgerWriteEvent> {
        Seq::empty()
    }

    /// Persists one transaction under `authority`.  A success adds exactly
    /// that record to the table; a failure leaves the table untouched.
    /// Either way the attempt is appended to the write trace.
    fn record(&mut self, authority: &str, names: &str, amount: u32, date: &str) -> (r: Result<
        (),
        String,
    >)
        ensures
            final(self).writes() == old(self).writes().push(
                (LedgerWriteEvent {
                    authority: authority@,
                    names: names@,
                    amount,
                    date: date@,
                    outcome: unit_result_view(r),
                }),
            ),
            r is Ok ==> final(self).table() == old(self).table().insert(
                authority@,
                (names@, amount),
            ),
            r is Err ==> final(self).table() == old(self).table(),
    ;

    /// Point lookup by authority: returns the stored names and amount when
    /// the authority is recorded, and reports an absent authority with the
    /// fixed message `"authority not exists"`.
    fn lookup(&self, authority: &str) -> (r: Result<(String, u32), String>)
        ensures
            self.table().contains_key(authority@) ==> (r matches Ok(p)
                && p.0@ == self.table()[authority@].0
                && p.1 == self.table()[authority@].1),
            !self.table().contains_key(authority@) ==> (r matches Err(e) && e@
                == "authority not exists"@),
    ;
}

/// One persisted transaction.
pub struct LedgerRecord {
    pub authority: String,
    pub names: String,
    pub amount: u32,
    pub date: String,
}

/// The concrete shape of one attempted write, as [`MemoryLedger`] keeps it.
pub struct LedgerWriteRecord {
    pub authority: String,
    pub names: String,
    pub amount: u32,
    pub date: String,
    pub outcome: Result<(), String>,
}

impl View for LedgerWriteRecord {
    type V = LedgerWriteEvent;

    open spec fn view(&self) -> LedgerWriteEvent {
        LedgerWriteEvent {
            authority: self.authority@,
            names: self.names@,
            amount: self.amount,
            date: self.date@,
            outcome: unit_result_view(self.outcome),
        }
    }
}

/// The mapping a list of records stands for; a later record under the same
/// authority would win, though [`MemoryLedger`] never appends a duplicate.
pub open spec fn table_of(entries: Seq<LedgerRecord>) -> Map<Seq<char>, (Seq<char>, u32)>
    decreases entries.len(),
{
    if entries.len() == 0 {
        Map::empty()
    } else {
        table_of(entries.drop_last()).insert(
            entries.last().authority@,
            (entries.last().names@, entries.last().amount),
        )
    }
}

/// Entries from `i` on do not hold `a`, so they do not affect its lookup.
proof fn lemma_table_of_unmatched_suffix(entries: Seq<LedgerRecord>, a: Seq<char>, i: int)
    requires
        0 <= i <= entries.len(),
        forall|j: int| i <= j < entries.len() ==> entries[j].authority@ != a,
    ensures
        table_of(entries).contains_key(a) == table_of(entries.take(i)).contains_key(a),
        table_of(entries).contains_key(a) ==> table_of(entries)[a] == table_of(entries.take(i))[a],
    decreases entries.len() - i,
{
    if i < entries.len() {
        let pre = entries.drop_last();
        assert(forall|j: int| i <= j < pre.len() ==> pre[j] == entries[j]);
        lemma_table_of_unmatched_suffix(pre, a, i);
        assert(pre.take(i) =~= entries.take(i));
    } else {
        assert(entries.take(i) =~= entries);
    }
}

/// An append-only, in-memory ledger.
pub struct MemoryLedger {
    entries: Vec<LedgerRecord>,
    writes: Vec<LedgerWriteRecord>,
}

impl MemoryLedger {
    /// An empty ledger.
    pub fn new() -> (l: Self)
        ensures
            l.table() == Map::<Seq<char>, (Seq<char>, u32)>::empty(),
            l.writes() == Seq::<LedgerWriteEvent>::empty(),
    {
        let l = MemoryLedger { entries: Vec::new(), writes: Vec::new() };
        proof {
            assert(l.writes@.map(|i: int, w: LedgerWriteRecord| w@) =~= Seq::<
                LedgerWriteEvent,
            >::empty());
        }
        l
    }
}

impl Ledger for MemoryLedger {
    closed spec fn table(&self) -> Map<Seq<char>, (Seq<char>, u32)> {
        table_of(self.entries@)
    }

    closed spec fn writes(&self) -> Seq<LedgerWriteEvent> {
        self.writes@.map(|i: int, w: LedgerWriteRecord| w@)
    }

    /// Beyond the trait's contract, the in-memory store owes success: a
    /// write fails exactly when the authority is already recorded, the
    /// one way an append-only store can refuse an append.
    fn record(&mut self, authority: &str, names: &str, amount: u32, date: &str) -> (r: Result<
        (),
        String,
    >)
        ensures
            (r is Ok) <==> !old(self).table().contains_key(authority@),
            r matches Err(e) ==> e@ == "authority already exists"@,
    {
        let duplicate = match self.lookup(authority) {
            Ok(_) => true,
            Err(_) => false,
        };
        let ghost writes0 = self.writes@;
        if duplicate {
            let write = LedgerWriteRecord {
                authority: authority.to_owned(),
                names: names.to_owned(),
                amount,
                date: date.to_owned(),
                outcome: Err(String::from_str("authority already exists")),
            };
            self.writes.push(write);
            proof {
                assert(self.writes@.map(|i: int, w: LedgerWriteRecord| w@) =~= writes0.map(
                    |i: int, w: LedgerWriteRecord| w@,
                ).push(self.writes@.last()@));
            }
            return Err(String::from_str("authority already exists"));
        }
        let ghost entries0 = self.entries@;
        self.entries.push(
            LedgerRecord {
                authority: authority.to_owned(),
                names: names.to_owned(),
                amount,
                date: date.to_owned(),
            },
        );
        let write = LedgerWriteRecord {
            authority: authority.to_owned(),
            names: names.to_owned(),
            amount,
            date: date.to_owned(),
            outcome: Ok(()),
        };
        self.writes.push(write);
        proof {
            assert(self.entries@.drop_last() =~= entries0);
            assert(self.writes@.map(|i: int, w: LedgerWriteRecord| w@) =~= writes0.map(
                |i: int, w: LedgerWriteRecord| w@,
            ).push(self.writes@.last()@));
        }
        Ok(())
    }

    fn lookup(&self, authority: &str) -> (r: Result<(String, u32), String>) {
        let a = authority.to_owned();
        let mut i: usize = self.entries.len();
        while i > 0
            invariant
                i <= self.entries@.len(),
                a@ == authority@,
                forall|j: int| i <= j < self.entries@.len() ==> self.entries@[j].authority@ != a@,
            decreases i,
        {
            let idx = i - 1;
            if self.entries[idx].authority.eq(&a) {
                proof {
                    lemma_table_of_unmatched_suffix(self.entries@, a@, idx + 1);
                    let head = self.entries@.take(idx + 1);
                    assert(head.last() == self.entries@[idx as int]);
                    assert(table_of(head) == table_of(head.drop_last()).insert(
                        head.last().authority@,
                        (head.last().names@, head.last().amount),
                    ));
                }
                return Ok((self.entries[idx].names.clone(), self.entries[idx].amount));
            }
            i = idx;
        }
        proof {
            lemma_table_of_unmatched_suffix(self.entries@, a@, 0);
            assert(self.entries@.take(0) =~= Seq::<LedgerRecord>::empty());
        }
        Err(String::from_str("authority not exists"))
    }
}

} // verus!
