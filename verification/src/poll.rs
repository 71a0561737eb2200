//! The exchange of a poll: requests made one at a time, answers taken one
//! at a time, until the records are decoded or a read fails.
//!
//! The exchange holds no session. Its caller makes the request that is
//! pending on the session of the device class, under whatever lock guards
//! that session, and hands the answer back. The first read that fails ends
//! the poll with the error of that read and with nothing else.

use vstd::prelude::*;
use crate::device::still_answers;
use crate::request::{Request, answers, words_of};
use crate::target::{Readings, Records, Target, decode_records, poll_of_still_device, readings,
    readings_at, requests, schedule};

verus! {

/// A poll that is under way: its target, and the answers to the requests
/// made so far. A request is always pending.
#[derive(Debug)]
pub struct Poll {
    target: Target,
    requests: Vec<Request>,
    replies: Vec<Vec<u16>>,
}

/// How a poll stands after an answer.
#[derive(Debug)]
pub enum Progress<E> {
    /// Requests are left: the one to make next is pending on the poll.
    Pending(Poll),
    /// Every request was answered: the records of the poll.
    Complete(Records),
    /// A read failed. The poll is over; nothing is left of it but the error.
    Aborted(E),
}

/// How a poll stands, as mathematical values.
pub enum Course<E> {
    /// Requests are left. The answers taken so far.
    Pending(Seq<Seq<u16>>),
    /// Every request was answered.
    Complete(Readings),
    /// A read failed.
    Aborted(E),
}

impl<E> View for Progress<E> {
    type V = Course<E>;

    open spec fn view(&self) -> Course<E> {
        match *self {
            Progress::Pending(poll) => Course::Pending(poll.replies()),
            Progress::Complete(records) => Course::Complete(records@),
            Progress::Aborted(error) => Course::Aborted(error),
        }
    }
}

/// A reply as mathematical values.
pub open spec fn heard<E>(reply: Result<Vec<u16>, E>) -> Result<Seq<u16>, E> {
    match reply {
        Ok(words) => Ok(words@),
        Err(error) => Err(error),
    }
}

/// How a poll of `target` that has taken the answers `taken` stands after
/// `reply`. An error ends it. Words are added to the answers; with the
/// answer to the last request the poll is complete, and the answers are
/// decoded.
pub open spec fn step<E>(target: Target, taken: Seq<Seq<u16>>, reply: Result<Seq<u16>, E>) -> Course<
    E,
> {
    match reply {
        Err(error) => Course::Aborted(error),
        Ok(words) => {
            let replies = taken.push(words);
            if replies.len() < schedule(target).len() {
                Course::Pending(replies)
            } else {
                Course::Complete(readings(target, replies))
            }
        },
    }
}

/// How a poll of `target` stands on a session that gives the replies of
/// `session`, one for each request made. A poll that has ended makes no
/// request, so the replies after its end are never given.
///
/// The exchange follows this course: a poll begins with no answers, as the
/// course of the empty session does, and each answer takes it one step on.
pub open spec fn run<E>(target: Target, session: Seq<Result<Seq<u16>, E>>) -> Course<E>
    decreases session.len(),
{
    if session.len() == 0 {
        Course::Pending(Seq::empty())
    } else {
        match run(target, session.drop_last()) {
            Course::Pending(taken) => step(target, taken, session.last()),
            ended => ended,
        }
    }
}

/// The words of the replies of `session`, where none of them is an error.
pub open spec fn words_heard<E>(session: Seq<Result<Seq<u16>, E>>) -> Seq<Seq<u16>> {
    session.map_values(|reply: Result<Seq<u16>, E>| reply->Ok_0)
}

impl Poll {
    #[verifier::type_invariant]
    spec fn well_formed(self) -> bool {
        &&& self.requests@ == schedule(self.target)
        &&& self.replies.len() < self.requests.len()
        &&& forall|k: int|
            0 <= k < self.replies.len() ==> (#[trigger] self.replies[k]).len()
                == self.requests[k].words()
    }

    /// What is polled.
    pub closed spec fn target(self) -> Target {
        self.target
    }

    /// The answers to the requests made so far, in the order of the
    /// requests. The answer to a unit selection holds no words.
    pub closed spec fn replies(self) -> Seq<Seq<u16>> {
        words_of(self.replies@)
    }

    /// The request to make next.
    pub open spec fn pending(self) -> Request {
        schedule(self.target())[self.replies().len() as int]
    }

    /// What holds of every poll: a request is left, and each answer so far
    /// has as many words as its request asked for.
    pub open spec fn under_way(self) -> bool {
        &&& self.replies().len() < schedule(self.target()).len()
        &&& answers(schedule(self.target()).take(self.replies().len() as int), self.replies())
    }

    /// Begins a poll of `target`. Nothing is answered yet, and the first
    /// request of the target is pending.
    pub fn begin(target: Target) -> (poll: Poll)
        requires
            target.supported(),
        ensures
            poll.target() == target,
            poll.replies() == Seq::<Seq<u16>>::empty(),
            poll.under_way(),
    {
        let requests = requests(target);
        Poll { target, requests, replies: Vec::new() }
    }

    /// The request to make next on the session.
    pub fn request(&self) -> (request: Request)
        ensures
            request == self.pending(),
            self.under_way(),
    {
        proof {
            use_type_invariant(self);
        }
        self.requests[self.replies.len()]
    }

    /// Whether `reply` can be the answer to the pending request: an error,
    /// or as many words as the request asks for.
    pub open spec fn fits<E>(self, reply: Result<Vec<u16>, E>) -> bool {
        reply matches Ok(words) ==> words.len() == self.pending().words()
    }

    /// Tests whether `reply` can be the answer to the pending request.
    pub fn accepts<E>(&self, reply: &Result<Vec<u16>, E>) -> (yes: bool)
        ensures
            yes == self.fits(*reply),
    {
        match reply {
            Err(_) => true,
            Ok(words) => match self.request() {
                Request::SelectUnit { .. } => words.len() == 0,
                Request::Read { count, .. } => words.len() == count as usize,
            },
        }
    }

    /// Takes the answer to the pending request.
    ///
    /// An error ends the poll with that error, whatever was answered before.
    /// Words are kept; after the last request they are decoded, all at once,
    /// into the records of the poll. The answer to a unit selection is `Ok`
    /// with no words.
    ///
    /// A session answers a read of `count` registers with `count` words.
    /// Given that, no decoding can meet words that are missing: every pair
    /// is whole, and the string readings are twenty-four.
    pub fn advance<E>(self, reply: Result<Vec<u16>, E>) -> (progress: Progress<E>)
        requires
            self.fits(reply),
        ensures
            progress@ == step(self.target(), self.replies(), heard(reply)),
            progress matches Progress::Pending(next) ==> next.target() == self.target()
                && next.under_way(),
    {
        proof {
            use_type_invariant(&self);
        }
        match reply {
            Err(error) => Progress::Aborted(error),
            Ok(words) => {
                let ghost taken = self.replies();
                let Poll { target, requests, mut replies } = self;
                replies.push(words);
                assert(words_of(replies@) =~= taken.push(words@));
                if replies.len() < requests.len() {
                    Progress::Pending(Poll { target, requests, replies })
                } else {
                    Progress::Complete(decode_records(target, &replies))
                }
            },
        }
    }
}

/// As long as every reply holds words and requests are left, a poll is
/// pending with the words of all replies. With the reply to the last
/// request it is complete, with the records that those words decode to.
pub proof fn run_of_answers<E>(target: Target, session: Seq<Result<Seq<u16>, E>>)
    requires
        session.len() <= schedule(target).len(),
        forall|k: int| 0 <= k < session.len() ==> session[k] is Ok,
    ensures
        run(target, session) == if session.len() < schedule(target).len() {
            Course::<E>::Pending(words_heard(session))
        } else {
            Course::<E>::Complete(readings(target, words_heard(session)))
        },
    decreases session.len(),
{
    if session.len() == 0 {
        assert(words_heard(session) =~= Seq::<Seq<u16>>::empty());
    } else {
        let earlier = session.drop_last();
        run_of_answers(target, earlier);
        assert(words_heard(earlier).push(session.last()->Ok_0) =~= words_heard(session));
    }
}

/// The first read that fails fails the whole poll. Whatever was answered
/// before, and whatever the session would have answered after, the poll
/// ends with the error of that read, and with no record.
pub proof fn failure_fails_the_poll<E>(
    target: Target,
    session: Seq<Result<Seq<u16>, E>>,
    at: int,
)
    requires
        0 <= at < session.len(),
        at < schedule(target).len(),
        session[at] is Err,
        forall|k: int| 0 <= k < at ==> session[k] is Ok,
    ensures
        run(target, session) == Course::<E>::Aborted(session[at]->Err_0),
    decreases session.len(),
{
    let earlier = session.drop_last();
    if session.len() == at + 1 {
        run_of_answers(target, earlier);
    } else {
        failure_fails_the_poll(target, earlier, at);
    }
}

/// Records are returned only when every request was answered with words:
/// a poll that is complete has heard no error from the first request to
/// the last, and its records are decoded from the words of those replies.
pub proof fn records_need_every_answer<E>(target: Target, session: Seq<Result<Seq<u16>, E>>)
    requires
        run(target, session) is Complete,
    ensures
        schedule(target).len() <= session.len(),
        forall|k: int| 0 <= k < schedule(target).len() ==> session[k] is Ok,
        run(target, session) == Course::<E>::Complete(
            readings(target, words_heard(session.take(schedule(target).len() as int))),
        ),
    decreases session.len(),
{
    let count = schedule(target).len() as int;
    if session.len() < count {
        // A poll that has heard fewer replies than it has requests is
        // pending, unless one of them was an error.
        if forall|k: int| 0 <= k < session.len() ==> session[k] is Ok {
            run_of_answers(target, session);
        } else {
            let at = first_error(session, session.len() as int);
            failure_fails_the_poll(target, session, at);
        }
    } else {
        let asked = session.take(count);
        if forall|k: int| 0 <= k < count ==> session[k] is Ok {
            run_of_answers(target, asked);
            run_after_the_end(target, session, count);
        } else {
            let at = first_error(session, count);
            failure_fails_the_poll(target, session, at);
        }
    }
}

/// The session of a still device: every request is answered with the words
/// that stand in the registers, and no read fails.
pub open spec fn still_session<E>(
    registers: spec_fn(u8, int) -> u16,
    initial: u8,
    requests: Seq<Request>,
) -> Seq<Result<Seq<u16>, E>> {
    still_answers(registers, initial, requests).map_values(
        |words: Seq<u16>| Ok::<Seq<u16>, E>(words),
    )
}

/// A poll of a still device is complete with the values that stand at the
/// addresses of the fields.
pub proof fn run_on_still_device<E>(
    target: Target,
    registers: spec_fn(u8, int) -> u16,
    initial: u8,
)
    requires
        target.supported(),
    ensures
        run::<E>(target, still_session(registers, initial, schedule(target))) == Course::<
            E,
        >::Complete(readings_at(target, registers, initial)),
{
    let session = still_session::<E>(registers, initial, schedule(target));
    run_of_answers(target, session);
    poll_of_still_device(target, registers, initial);
    assert(words_heard(session) =~= still_answers(registers, initial, schedule(target)));
}

/// The place of the first error among the first `count` replies of a
/// session that holds one there.
proof fn first_error<E>(session: Seq<Result<Seq<u16>, E>>, count: int) -> (at: int)
    requires
        0 <= count <= session.len(),
        !(forall|k: int| 0 <= k < count ==> session[k] is Ok),
    ensures
        0 <= at < count,
        session[at] is Err,
        forall|k: int| 0 <= k < at ==> session[k] is Ok,
    decreases count,
{
    if forall|k: int| 0 <= k < count - 1 ==> session[k] is Ok {
        count - 1
    } else {
        first_error(session, count - 1)
    }
}

/// A poll that has ended stays as it ended: replies after its end change
/// nothing.
proof fn run_after_the_end<E>(target: Target, session: Seq<Result<Seq<u16>, E>>, end: int)
    requires
        0 <= end <= session.len(),
        !(run(target, session.take(end)) is Pending),
    ensures
        run(target, session) == run(target, session.take(end)),
    decreases session.len(),
{
    if session.len() == end {
        assert(session.take(end) =~= session);
    } else {
        let earlier = session.drop_last();
        assert(earlier.take(end) =~= session.take(end));
        run_after_the_end(target, earlier, end);
    }
}

} // verus!
