//! The latest reading, kept for the display: one slot that each new
//! reading replaces as a whole.

use crate::record::MeasurementData;
use vstd::prelude::*;

verus! {

/// Holds the reading published last, or nothing before the first one.
#[derive(Clone, Copy, Debug)]
pub struct Mailbox {
    slot: Option<MeasurementData>,
}

impl View for Mailbox {
    type V = Option<MeasurementData>;

    closed spec fn view(&self) -> Option<MeasurementData> {
        self.slot
    }
}

impl Mailbox {
    /// A mailbox into which nothing was published yet.
    pub fn new() -> (mailbox: Mailbox)
        ensures
            mailbox@ is None,
    {
        Mailbox { slot: None }
    }

    /// Replaces whatever the mailbox held by `record`.
    pub fn publish(&mut self, record: MeasurementData)
        ensures
            final(self)@ == Some(record),
            final(self)@ == held_next(old(self)@, MailboxOp::Publish(record)),
    {
        self.slot = Some(record);
    }

    /// The reading published last, whole, or nothing if there was none.
    /// Reading changes nothing.
    pub fn read(&self) -> (latest: Option<MeasurementData>)
        ensures
            latest == self@,
            self@ == held_next(self@, MailboxOp::Read),
    {
        self.slot
    }
}

/// One use of a mailbox.
pub enum MailboxOp {
    Publish(MeasurementData),
    Read,
}

/// What a mailbox holds after one use.
pub open spec fn held_next(held: Option<MeasurementData>, op: MailboxOp) -> Option<
    MeasurementData,
> {
    match op {
        MailboxOp::Publish(record) => Some(record),
        MailboxOp::Read => held,
    }
}

/// What a mailbox holds after a sequence of uses, starting empty.
pub open spec fn held_after(ops: Seq<MailboxOp>) -> Option<MeasurementData>
    decreases ops.len(),
{
    if ops.len() == 0 {
        None
    } else {
        held_next(held_after(ops.drop_last()), ops.last())
    }
}

/// Whatever the order of publishing and reading, the mailbox holds after
/// `k` uses, and so gives to a read that comes next, nothing if nothing was
/// published so far, and else exactly the record of the last publish:
/// never parts of two.
pub proof fn lemma_read_sees_latest_publish(ops: Seq<MailboxOp>, k: int)
    requires
        0 <= k <= ops.len(),
    ensures
        match held_after(ops.take(k)) {
            None => forall|i: int| 0 <= i < k ==> ops[i] is Read,
            Some(record) => exists|j: int|
                0 <= j < k && ops[j] == MailboxOp::Publish(record) && forall|i: int|
                    j < i < k ==> ops[i] is Read,
        },
    decreases k,
{
    if k > 0 {
        let before = ops.take(k);
        assert(before.last() == ops[k - 1]);
        assert(before.drop_last() =~= ops.take(k - 1));
        match ops[k - 1] {
            MailboxOp::Publish(record) => {
                assert(0 <= k - 1 < k && ops[k - 1] == MailboxOp::Publish(record) && forall|i: int|
                    k - 1 < i < k ==> ops[i] is Read);
            },
            MailboxOp::Read => {
                lemma_read_sees_latest_publish(ops, k - 1);
                match held_after(ops.take(k - 1)) {
                    None => {},
                    Some(record) => {
                        let j = choose|j: int|
                            0 <= j < k - 1 && ops[j] == MailboxOp::Publish(record) && forall|i: int|
                                j < i < k - 1 ==> ops[i] is Read;
                        assert(0 <= j < k && ops[j] == MailboxOp::Publish(record) && forall|i: int|
                            j < i < k ==> ops[i] is Read);
                    },
                }
            },
        }
    }
}

} // verus!
