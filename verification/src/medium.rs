//! The storage card as the append protocol sees it, and what the protocol
//! does to it: nothing stays open, whatever fails, and a card that works
//! gets its header once and then one line for each record.

use crate::adalogger::{begun, Action, LogError, Phase, Progress, Reply};
use crate::line::header_bytes;
use vstd::prelude::*;

verus! {

/// A card: what its log file holds, if there is one, and what the logger
/// holds of the card.
pub struct Medium {
    pub file: Option<Seq<u8>>,
    pub volume_held: bool,
    pub dir_open: bool,
    pub file_open: bool,
}

impl Medium {
    /// Nothing of the card is held: it can be taken out or mounted anew.
    pub open spec fn at_rest(self) -> bool {
        !self.volume_held && !self.dir_open && !self.file_open
    }

    /// The operation is in order on the card as it stands: what it works on
    /// is open, and nothing is closed or given back while something inside
    /// it is still open.
    pub open spec fn permits(self, action: Action) -> bool {
        match action {
            Action::Mount => self.at_rest(),
            Action::OpenRootDir => self.volume_held && !self.dir_open && !self.file_open,
            Action::FindFile | Action::CreateFile | Action::OpenFile => self.volume_held
                && self.dir_open && !self.file_open,
            Action::WriteHeader | Action::WriteLine | Action::CloseFile => self.volume_held
                && self.dir_open && self.file_open && self.file is Some,
            Action::CloseDir => self.volume_held && self.dir_open && !self.file_open,
            Action::Release => self.volume_held && !self.dir_open && !self.file_open,
            Action::Finish(_) => self.at_rest(),
        }
    }

    /// The card after an operation with the given reply. An operation that
    /// failed has changed nothing, but closing and giving back always let go.
    /// A file that was opened exists.
    pub open spec fn after(self, action: Action, reply: Reply, line: Seq<u8>) -> Medium {
        let done = reply is Done;
        match action {
            Action::Mount => Medium { volume_held: self.volume_held || done, ..self },
            Action::OpenRootDir => Medium { dir_open: self.dir_open || done, ..self },
            Action::FindFile => self,
            Action::CreateFile => if done {
                Medium { file: Some(Seq::empty()), file_open: true, ..self }
            } else {
                self
            },
            Action::OpenFile => if done {
                Medium {
                    file: Some(
                        match self.file {
                            Some(held) => held,
                            None => Seq::empty(),
                        },
                    ),
                    file_open: true,
                    ..self
                }
            } else {
                self
            },
            Action::WriteHeader => if done {
                Medium { file: Some(self.file.unwrap() + header_bytes()), ..self }
            } else {
                self
            },
            Action::WriteLine => if done {
                Medium { file: Some(self.file.unwrap() + line), ..self }
            } else {
                self
            },
            Action::CloseFile => Medium { file_open: false, ..self },
            Action::CloseDir => Medium { dir_open: false, ..self },
            Action::Release => Medium { volume_held: false, ..self },
            Action::Finish(_) => self,
        }
    }

    /// The reply of a card on which nothing fails: the log file is found
    /// exactly when there is one.
    pub open spec fn sound_reply(self, action: Action) -> Reply {
        match action {
            Action::FindFile => if self.file is Some {
                Reply::Done
            } else {
                Reply::Failed
            },
            _ => Reply::Done,
        }
    }
}

/// The logger holds of the card what the pending operation needs, and no
/// more.
pub open spec fn in_step(p: Progress, m: Medium) -> bool {
    match p.phase {
        Phase::Idle | Phase::Mounting => m.at_rest(),
        Phase::OpeningRoot | Phase::Releasing => m.volume_held && !m.dir_open && !m.file_open,
        Phase::Looking | Phase::Creating | Phase::Opening | Phase::ClosingDir => m.volume_held
            && m.dir_open && !m.file_open,
        Phase::WritingHeader | Phase::WritingLine | Phase::ClosingFile => m.volume_held
            && m.dir_open && m.file_open && m.file is Some,
    }
}

/// An upper bound of the replies that are still to come.
pub open spec fn steps_left(phase: Phase) -> nat {
    match phase {
        Phase::Idle => 0,
        Phase::Releasing => 1,
        Phase::ClosingDir => 2,
        Phase::ClosingFile => 3,
        Phase::WritingLine => 4,
        Phase::WritingHeader => 5,
        Phase::Opening => 5,
        Phase::Creating => 6,
        Phase::Looking => 7,
        Phase::OpeningRoot => 8,
        Phase::Mounting => 9,
    }
}

/// Logger and card after the replies were given one by one, each to the
/// operation pending at its turn.
pub open spec fn run(p: Progress, m: Medium, replies: Seq<Reply>) -> (Progress, Medium)
    decreases replies.len(),
{
    if replies.len() == 0 {
        (p, m)
    } else {
        run(
            p.step(replies[0]),
            m.after(p.pending(), replies[0], p.line),
            replies.drop_first(),
        )
    }
}

/// Every operation asked for during such a run was in order on the card at
/// its turn.
pub open spec fn run_in_order(p: Progress, m: Medium, replies: Seq<Reply>) -> bool
    decreases replies.len(),
{
    if replies.len() == 0 {
        m.permits(p.pending())
    } else {
        m.permits(p.pending()) && run_in_order(
            p.step(replies[0]),
            m.after(p.pending(), replies[0], p.line),
            replies.drop_first(),
        )
    }
}

/// One step, whatever the reply: the operation asked for is in order, the
/// logger holds afterwards what the next operation needs, and fewer replies
/// are left to come.
pub proof fn lemma_step_in_order(p: Progress, m: Medium, reply: Reply)
    requires
        in_step(p, m),
    ensures
        m.permits(p.pending()),
        in_step(p.step(reply), m.after(p.pending(), reply, p.line)),
        !(p.phase is Idle) ==> steps_left(p.step(reply).phase) < steps_left(p.phase),
        p.phase is Idle ==> p.step(reply) == p,
{
}

/// Whatever the card replies, and wherever it fails: once as many replies
/// are in as `steps_left` counts, nine from the start, the logger has
/// finished, every operation it asked for was in order, so that the file
/// was closed before the directory and the directory before the volume was
/// given back, and nothing of the card is held any more.
pub proof fn lemma_every_run_lets_go(p: Progress, m: Medium, replies: Seq<Reply>)
    requires
        in_step(p, m),
        replies.len() >= steps_left(p.phase),
    ensures
        run(p, m, replies).0.phase is Idle,
        run(p, m, replies).1.at_rest(),
        run_in_order(p, m, replies),
    decreases replies.len(),
{
    if replies.len() > 0 {
        lemma_step_in_order(p, m, replies[0]);
        lemma_every_run_lets_go(
            p.step(replies[0]),
            m.after(p.pending(), replies[0], p.line),
            replies.drop_first(),
        );
    }
}

/// What comes of a record, by the replies of the card: a failure to mount
/// or to open the root directory, to create or to open the file, or to
/// write the header is the result; that the line was refused is not.
pub open spec fn outcome_of(replies: Seq<Reply>) -> Result<(), LogError>
    recommends
        replies.len() >= 9,
{
    if replies[0] is Failed || replies[1] is Failed {
        Err(LogError::MediumUnavailable)
    } else if replies[3] is Failed {
        Err(LogError::FileUnavailable)
    } else if replies[2] is Failed && replies[4] is Failed {
        Err(LogError::HeaderNotWritten)
    } else {
        Ok(())
    }
}

/// The result of an append is decided by the replies to the first five
/// operations at most, and the line counts as lost exactly when the card
/// refused it.
pub proof fn lemma_outcome(line: Seq<u8>, m: Medium, replies: Seq<Reply>)
    requires
        replies.len() >= 9,
    ensures
        run(begun(line), m, replies).0.outcome() == outcome_of(replies),
        run(begun(line), m, replies).0.line == line,
        run(begun(line), m, replies).0.line_lost == (outcome_of(replies) is Ok && if replies[2]
            is Failed {
            replies[5] is Failed
        } else {
            replies[4] is Failed
        }),
{
    let r = replies;
    let p0 = begun(line);
    let m0 = m;
    let p1 = p0.step(r[0]);
    let m1 = m0.after(p0.pending(), r[0], line);
    let r1 = r.drop_first();
    let p2 = p1.step(r[1]);
    let m2 = m1.after(p1.pending(), r[1], line);
    let r2 = r1.drop_first();
    let p3 = p2.step(r[2]);
    let m3 = m2.after(p2.pending(), r[2], line);
    let r3 = r2.drop_first();
    let p4 = p3.step(r[3]);
    let m4 = m3.after(p3.pending(), r[3], line);
    let r4 = r3.drop_first();
    let p5 = p4.step(r[4]);
    let m5 = m4.after(p4.pending(), r[4], line);
    let r5 = r4.drop_first();
    let p6 = p5.step(r[5]);
    let m6 = m5.after(p5.pending(), r[5], line);
    let r6 = r5.drop_first();
    assert(r1[0] == r[1] && r2[0] == r[2] && r3[0] == r[3] && r4[0] == r[4] && r5[0] == r[5]);
    assert(run(p0, m0, r) == run(p1, m1, r1));
    assert(run(p1, m1, r1) == run(p2, m2, r2));
    assert(run(p2, m2, r2) == run(p3, m3, r3));
    assert(run(p3, m3, r3) == run(p4, m4, r4));
    assert(run(p4, m4, r4) == run(p5, m5, r5));
    assert(run(p5, m5, r5) == run(p6, m6, r6));
    lemma_run_keeps_result(p6, m6, r6);
}

/// Once the line was written or refused, no reply changes the result, the
/// line, or whether the line counts as lost.
pub proof fn lemma_run_keeps_result(p: Progress, m: Medium, replies: Seq<Reply>)
    requires
        p.phase is Idle || p.phase is ClosingFile || p.phase is ClosingDir || p.phase is Releasing,
    ensures
        run(p, m, replies).0.failure == p.failure,
        run(p, m, replies).0.line == p.line,
        run(p, m, replies).0.line_lost == p.line_lost,
    decreases replies.len(),
{
    if replies.len() > 0 {
        lemma_run_keeps_result(
            p.step(replies[0]),
            m.after(p.pending(), replies[0], p.line),
            replies.drop_first(),
        );
    }
}

/// Logger and card after `n` operations on a card on which nothing fails.
pub open spec fn sound_run(p: Progress, m: Medium, n: nat) -> (Progress, Medium)
    decreases n,
{
    if n == 0 {
        (p, m)
    } else {
        let reply = m.sound_reply(p.pending());
        sound_run(p.step(reply), m.after(p.pending(), reply, p.line), (n - 1) as nat)
    }
}

/// A card on which nothing fails, after one record was appended by a logger
/// that knew nothing of the card beforehand.
pub open spec fn appended(m: Medium, line: Seq<u8>) -> Medium {
    sound_run(begun(line), m, 9).1
}

/// The lines one after the other.
pub open spec fn joined(lines: Seq<Seq<u8>>) -> Seq<u8>
    decreases lines.len(),
{
    if lines.len() == 0 {
        Seq::empty()
    } else {
        joined(lines.drop_last()) + lines.last()
    }
}

/// A card on which nothing fails, after the records were appended in order,
/// each by a logger that knew nothing of the card beforehand.
pub open spec fn logged(m: Medium, lines: Seq<Seq<u8>>) -> Medium
    decreases lines.len(),
{
    if lines.len() == 0 {
        m
    } else {
        appended(logged(m, lines.drop_last()), lines.last())
    }
}

/// A card without a log file, and nothing held of it.
pub open spec fn blank() -> Medium {
    Medium { file: None, volume_held: false, dir_open: false, file_open: false }
}

/// On a card on which nothing fails an append succeeds and lets go of the
/// card. A card without log file then has one that holds the header and
/// the line; a log file that was there holds what it held, then the line.
pub proof fn lemma_append_on_sound_card(m: Medium, line: Seq<u8>)
    requires
        m.at_rest(),
    ensures
        sound_run(begun(line), m, 9).0 == (Progress { phase: Phase::Idle, ..begun(line) }),
        sound_run(begun(line), m, 9).0.outcome() is Ok,
        appended(m, line).at_rest(),
        appended(m, line).file == Some(
            match m.file {
                None => header_bytes() + line,
                Some(held) => held + line,
            },
        ),
{
    reveal_with_fuel(sound_run, 10);
    match m.file {
        None => {
            assert(Seq::<u8>::empty() + header_bytes() =~= header_bytes());
        },
        Some(held) => {},
    }
}

/// After any number of records, one at least, a card that had no log file
/// holds the header once, at the start, and then the lines of the records
/// in the order in which they were appended.
pub proof fn lemma_header_once(lines: Seq<Seq<u8>>)
    requires
        lines.len() >= 1,
    ensures
        logged(blank(), lines).at_rest(),
        logged(blank(), lines).file == Some(header_bytes() + joined(lines)),
    decreases lines.len(),
{
    let earlier = lines.drop_last();
    if earlier.len() == 0 {
        assert(logged(blank(), earlier) == blank());
        lemma_append_on_sound_card(blank(), lines.last());
        assert(joined(earlier) =~= Seq::<u8>::empty());
        assert(header_bytes() + lines.last() =~= header_bytes() + joined(lines));
    } else {
        lemma_header_once(earlier);
        lemma_append_on_sound_card(logged(blank(), earlier), lines.last());
        assert(header_bytes() + joined(earlier) + lines.last() =~= header_bytes() + joined(lines));
    }
}

/// A record appended to a log file that is already there, by a logger that
/// kept nothing from the time before, goes behind what the file held: the
/// header is not written again.
pub proof fn lemma_append_after_remount(first: Seq<u8>, second: Seq<u8>)
    ensures
        appended(blank(), first).file == Some(header_bytes() + first),
        appended(appended(blank(), first), second).file == Some(
            header_bytes() + first + second,
        ),
        appended(appended(blank(), first), second).at_rest(),
{
    lemma_append_on_sound_card(blank(), first);
    lemma_append_on_sound_card(appended(blank(), first), second);
}

} // verus!
