//! Properties of whole requests and of chains of requests, proved over the
//! views that the executable functions' contracts use.
use vstd::prelude::*;
use vstd::std_specs::cmp::PartialOrdSpec;
use crate::level::Level;
use crate::message::MessageView;
use crate::messages::{MessagesView, after_next, new_message, next_of, opened, pushed, stored_after};
use crate::store::DataView;

verus! {

/// One thing a handler does with the message state of its request.
pub enum Action {
    /// Push a message with this level and text.
    Push(Level, Seq<char>),
    /// Read the next message.
    Read,
}

/// The state after one action.
pub open spec fn step(m: MessagesView, a: Action) -> MessagesView {
    match a {
        Action::Push(level, text) => pushed(m, level, text),
        Action::Read => after_next(m),
    }
}

/// The state after a sequence of actions.
pub open spec fn run(m: MessagesView, acts: Seq<Action>) -> MessagesView
    decreases acts.len(),
{
    if acts.len() == 0 {
        m
    } else {
        run(step(m, acts[0]), acts.drop_first())
    }
}

/// The message that one action returns, as a sequence of at most one.
pub open spec fn read_result(m: MessagesView, a: Action) -> Seq<MessageView> {
    match a {
        Action::Read => match next_of(m) {
            Some(x) => seq![x],
            None => Seq::empty(),
        },
        Action::Push(_, _) => Seq::empty(),
    }
}

/// The messages that the reads among `acts` return, in order.
pub open spec fn yields(m: MessagesView, acts: Seq<Action>) -> Seq<MessageView>
    decreases acts.len(),
{
    if acts.len() == 0 {
        Seq::empty()
    } else {
        read_result(m, acts[0]) + yields(step(m, acts[0]), acts.drop_first())
    }
}

/// The messages that the pushes among `acts` add, in order.
pub open spec fn pushes(acts: Seq<Action>) -> Seq<MessageView>
    decreases acts.len(),
{
    if acts.len() == 0 {
        Seq::empty()
    } else {
        let here = match acts[0] {
            Action::Push(level, text) => seq![new_message(level, text)],
            Action::Read => Seq::empty(),
        };
        here + pushes(acts.drop_first())
    }
}

/// Pushes of the given messages, in order.
pub open spec fn push_acts(p: Seq<(Level, Seq<char>)>) -> Seq<Action> {
    p.map_values(|x: (Level, Seq<char>)| Action::Push(x.0, x.1))
}

/// The messages that `push_acts(p)` adds.
pub open spec fn as_messages(p: Seq<(Level, Seq<char>)>) -> Seq<MessageView> {
    p.map_values(|x: (Level, Seq<char>)| new_message(x.0, x.1))
}

/// `n` reads.
pub open spec fn read_acts(n: nat) -> Seq<Action> {
    Seq::new(n, |i: int| Action::Read)
}

/// What the session store holds after one request that found `stored` and
/// performed `acts`.
pub open spec fn request(stored: Option<DataView>, acts: Seq<Action>) -> Option<DataView> {
    stored_after(stored, run(opened(stored), acts))
}

proof fn lemma_run_append(m: MessagesView, a: Seq<Action>, b: Seq<Action>)
    ensures
        run(m, a + b) == run(run(m, a), b),
        yields(m, a + b) == yields(m, a) + yields(run(m, a), b),
        pushes(a + b) == pushes(a) + pushes(b),
    decreases a.len(),
{
    if a.len() == 0 {
        assert(a + b =~= b);
        assert(yields(m, a) + yields(run(m, a), b) =~= yields(m, b));
        assert(pushes(a) + pushes(b) =~= pushes(b));
    } else {
        assert((a + b).drop_first() =~= a.drop_first() + b);
        assert((a + b)[0] == a[0]);
        lemma_run_append(step(m, a[0]), a.drop_first(), b);
        let h = read_result(m, a[0]);
        assert(yields(m, a + b) == h + yields(step(m, a[0]), a.drop_first() + b));
        assert(yields(m, a) == h + yields(step(m, a[0]), a.drop_first()));
        assert(yields(m, a + b) =~= yields(m, a) + yields(run(m, a), b));
        assert(pushes(a + b) =~= pushes(a) + pushes(b));
    }
}

/// Effect of a handler's actions: the pushed messages are appended to the
/// pending queue, and the state is modified exactly where it was before, or
/// something was pushed, or some read returned a message.
pub proof fn lemma_run_effect(m: MessagesView, acts: Seq<Action>)
    ensures
        run(m, acts).data.pending == m.data.pending + pushes(acts),
        run(m, acts).modified == (m.modified || pushes(acts).len() > 0 || yields(m, acts).len() > 0),
    decreases acts.len(),
{
    if acts.len() == 0 {
        assert(m.data.pending + pushes(acts) =~= m.data.pending);
    } else {
        lemma_run_effect(step(m, acts[0]), acts.drop_first());
        let n = step(m, acts[0]);
        match acts[0] {
            Action::Push(level, text) => {
                assert(n.data.pending + pushes(acts.drop_first()) =~= m.data.pending + pushes(acts));
            },
            Action::Read => {
                assert(n.data.pending + pushes(acts.drop_first()) =~= m.data.pending + pushes(acts));
                assert(pushes(acts) =~= pushes(acts.drop_first()));
            },
        }
    }
}

proof fn lemma_push_acts(m: MessagesView, p: Seq<(Level, Seq<char>)>)
    ensures
        run(m, push_acts(p)).data.current == m.data.current,
        pushes(push_acts(p)) == as_messages(p),
        yields(m, push_acts(p)) == Seq::<MessageView>::empty(),
    decreases p.len(),
{
    if p.len() == 0 {
        assert(push_acts(p) =~= Seq::<Action>::empty());
        assert(as_messages(p) =~= Seq::<MessageView>::empty());
    } else {
        let a = push_acts(p);
        assert(a.drop_first() =~= push_acts(p.drop_first()));
        assert(as_messages(p) =~= seq![new_message(p[0].0, p[0].1)] + as_messages(p.drop_first()));
        lemma_push_acts(step(m, a[0]), p.drop_first());
        assert(yields(m, a) =~= Seq::<MessageView>::empty());
    }
}

proof fn lemma_read_acts(m: MessagesView, n: nat)
    requires
        n >= m.data.current.len(),
    ensures
        run(m, read_acts(n)).data.current == Seq::<MessageView>::empty(),
        yields(m, read_acts(n)) == m.data.current,
        pushes(read_acts(n)) == Seq::<MessageView>::empty(),
    decreases n,
{
    if n == 0 {
        assert(read_acts(n) =~= Seq::<Action>::empty());
        assert(m.data.current =~= Seq::<MessageView>::empty());
    } else {
        let a = read_acts(n);
        assert(a.drop_first() =~= read_acts((n - 1) as nat));
        let m2 = step(m, a[0]);
        lemma_read_acts(m2, (n - 1) as nat);
        if m.data.current.len() > 0 {
            assert(yields(m, a) =~= seq![m.data.current[0]] + m.data.current.drop_first());
            assert(yields(m, a) =~= m.data.current);
        } else {
            assert(m.data.current =~= Seq::<MessageView>::empty());
            assert(yields(m, a) =~= Seq::<MessageView>::empty());
        }
        assert(pushes(a) =~= pushes(a.drop_first()));
    }
}

/// Messages pushed during one request are exactly what the next request
/// reads, in push order, even where that request pushes messages of its own
/// first; those are then exactly what the request after it reads. Nothing
/// read in the second request comes back in the third. (Where the first
/// request pushes nothing and reads nothing it saves nothing, and the
/// second request sees the older stored messages instead.)
pub proof fn law_rotation(
    stored: Option<DataView>,
    p1: Seq<(Level, Seq<char>)>,
    p2: Seq<(Level, Seq<char>)>,
    extra: nat,
)
    requires
        p1.len() > 0,
    ensures
        ({
            let s1 = request(stored, push_acts(p1));
            let acts2 = push_acts(p2) + read_acts(p1.len() + extra);
            let s2 = request(s1, acts2);
            &&& yields(opened(s1), acts2) == as_messages(p1)
            &&& yields(opened(s2), read_acts(p2.len() + extra)) == as_messages(p2)
        }),
{
    let m0 = opened(stored);
    lemma_push_acts(m0, p1);
    lemma_run_effect(m0, push_acts(p1));
    let s1 = request(stored, push_acts(p1));
    assert(s1 == Some(run(m0, push_acts(p1)).data));
    let m1 = opened(s1);
    assert(m1.data.current == as_messages(p1));
    let acts2 = push_acts(p2) + read_acts(p1.len() + extra);
    lemma_run_append(m1, push_acts(p2), read_acts(p1.len() + extra));
    lemma_push_acts(m1, p2);
    lemma_run_effect(m1, push_acts(p2));
    let m1p = run(m1, push_acts(p2));
    lemma_read_acts(m1p, p1.len() + extra);
    lemma_run_effect(m1p, read_acts(p1.len() + extra));
    assert(yields(m1, acts2) =~= as_messages(p1));
    let m1e = run(m1, acts2);
    assert(m1e.modified);
    assert(m1e.data.pending =~= as_messages(p2));
    let s2 = request(s1, acts2);
    let m2 = opened(s2);
    assert(m2.data.current == as_messages(p2));
    lemma_read_acts(m2, p2.len() + extra);
}

/// A request that reads every readable message and saves its state leaves
/// for the next request only what it pushed itself: what it read is not
/// delivered again.
pub proof fn law_no_replay(stored: Option<DataView>, acts: Seq<Action>)
    requires
        run(opened(stored), acts).data.current.len() == 0,
        run(opened(stored), acts).modified,
    ensures
        opened(request(stored, acts)).data.current == pushes(acts),
{
    lemma_run_effect(opened(stored), acts);
    assert(Seq::<MessageView>::empty() + pushes(acts) =~= pushes(acts));
}

/// A request that pushes nothing and whose reads return nothing leaves the
/// state unmodified, so nothing is written to the session store.
pub proof fn law_no_op_skip(stored: Option<DataView>, acts: Seq<Action>)
    requires
        forall|i: int| 0 <= i < acts.len() ==> acts[i] is Read,
        yields(opened(stored), acts).len() == 0,
    ensures
        !run(opened(stored), acts).modified,
        request(stored, acts) == stored,
{
    lemma_no_pushes(acts);
    lemma_run_effect(opened(stored), acts);
}

proof fn lemma_no_pushes(acts: Seq<Action>)
    requires
        forall|i: int| 0 <= i < acts.len() ==> acts[i] is Read,
    ensures
        pushes(acts).len() == 0,
    decreases acts.len(),
{
    if acts.len() > 0 {
        assert forall|i: int| 0 <= i < acts.drop_first().len() implies acts.drop_first()[i] is Read by {
            assert(acts.drop_first()[i] == acts[i + 1]);
        }
        lemma_no_pushes(acts.drop_first());
    }
}

/// Once the state is modified, no sequence of handler actions makes it
/// unmodified again.
pub proof fn law_modified_monotone(m: MessagesView, acts: Seq<Action>)
    requires
        m.modified,
    ensures
        run(m, acts).modified,
{
    lemma_run_effect(m, acts);
}

/// `<` orders the five levels strictly and totally:
/// `Debug < Info < Success < Warning < Error`.
pub proof fn law_level_order()
    ensures
        Level::Debug.partial_cmp_spec(&Level::Info) == Some(core::cmp::Ordering::Less),
        Level::Info.partial_cmp_spec(&Level::Success) == Some(core::cmp::Ordering::Less),
        Level::Success.partial_cmp_spec(&Level::Warning) == Some(core::cmp::Ordering::Less),
        Level::Warning.partial_cmp_spec(&Level::Error) == Some(core::cmp::Ordering::Less),
        forall|a: Level| a.partial_cmp_spec(&a) == Some(core::cmp::Ordering::Equal),
        forall|a: Level, b: Level|
            a != b ==> (#[trigger] a.partial_cmp_spec(&b) == Some(core::cmp::Ordering::Less)
                || b.partial_cmp_spec(&a) == Some(core::cmp::Ordering::Less)),
        forall|a: Level, b: Level|
            #[trigger] a.partial_cmp_spec(&b) == Some(core::cmp::Ordering::Less)
                ==> b.partial_cmp_spec(&a) == Some(core::cmp::Ordering::Greater),
        forall|a: Level, b: Level, c: Level|
            #[trigger] a.partial_cmp_spec(&b) == Some(core::cmp::Ordering::Less)
                && #[trigger] b.partial_cmp_spec(&c) == Some(core::cmp::Ordering::Less)
                ==> a.partial_cmp_spec(&c) == Some(core::cmp::Ordering::Less),
{
    assert forall|a: Level, b: Level| a != b implies (#[trigger] a.partial_cmp_spec(&b)
        == Some(core::cmp::Ordering::Less) || b.partial_cmp_spec(&a) == Some(core::cmp::Ordering::Less)) by {
        assert(a.rank() != b.rank());
    }
}

} // verus!
