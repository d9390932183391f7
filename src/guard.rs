use vstd::prelude::*;

verus! {

/// Whether a panic inside a callback that the engine's thread runs is caught.
///
/// Caught (the default), it is reported and the process aborts, so no unwind reaches the
/// engine's frames. Not caught, the callback runs directly: the native crash keeps the
/// panicking call stack, at the price of an unwind across the foreign boundary.
#[derive(Clone, Copy, Debug, PartialEq, Eq, Structural)]
pub struct GuardPolicy {
    catching: bool,
}

/// How the guard runs a callback body.
#[derive(Clone, Copy, Debug, PartialEq, Eq, Structural)]
pub enum GuardMode {
    /// Catch any unwind, report it and abort the process.
    CatchAndAbort,
    /// Call the body directly.
    Direct,
}

impl GuardPolicy {
    /// The default policy: panics are caught and the process aborts.
    pub fn new() -> (r: Self)
        ensures
            r.catches(),
    {
        GuardPolicy { catching: true }
    }

    pub closed spec fn catches(&self) -> bool {
        self.catching
    }

    /// How the guard runs a callback body under this policy.
    pub fn mode(&self) -> (r: GuardMode)
        ensures
            r == if self.catches() { GuardMode::CatchAndAbort } else { GuardMode::Direct },
    {
        if self.catching {
            GuardMode::CatchAndAbort
        } else {
            GuardMode::Direct
        }
    }
}

/// Makes the guard catch panics again (the default behaviour).
pub fn enable_catch_unwind(policy: &mut GuardPolicy)
    ensures
        final(policy).catches(),
{
    policy.catching = true;
}

/// Makes the guard run callbacks directly, for better call stacks while debugging.
pub fn disable_catch_unwind(policy: &mut GuardPolicy)
    ensures
        !final(policy).catches(),
{
    policy.catching = false;
}

/// The position of the first line feed at or after `start`, if any.
pub open spec fn next_newline(msg: Seq<u8>, start: int) -> Option<int>
    decreases msg.len() - start,
{
    if start < 0 || start >= msg.len() {
        None
    } else if msg[start] == 0x0Au8 {
        Some(start)
    } else {
        next_newline(msg, start + 1)
    }
}

/// The end of the line `start .. end` once one trailing carriage return is dropped.
pub open spec fn line_end(msg: Seq<u8>, start: int, end: int) -> int {
    if end > start && msg[end - 1] == 0x0Du8 {
        end - 1
    } else {
        end
    }
}

/// The lines of `msg` from `start` on, split at each line feed, each as a byte span without
/// its trailing carriage return.
pub open spec fn line_spans(msg: Seq<u8>, start: int) -> Seq<(usize, usize)>
    decreases msg.len() - start,
{
    if start < 0 || start > msg.len() {
        Seq::empty()
    } else {
        match next_newline(msg, start) {
            None => seq![(start as usize, line_end(msg, start, msg.len() as int) as usize)],
            Some(nl) => if start <= nl < msg.len() {
                seq![(start as usize, line_end(msg, start, nl) as usize)] + line_spans(msg, nl + 1)
            } else {
                Seq::empty()
            },
        }
    }
}

proof fn lemma_next_newline_skip(msg: Seq<u8>, start: int, i: int)
    requires
        0 <= start <= i <= msg.len(),
        forall|k: int| start <= k < i ==> msg[k] != 0x0Au8,
    ensures
        next_newline(msg, start) == next_newline(msg, i),
    decreases i - start,
{
    if start < i {
        lemma_next_newline_skip(msg, start + 1, i);
    }
}

/// Splits a panic message into the lines the guard's report indents, one byte span per line
/// feed-separated line, without a trailing carriage return.
pub fn report_lines(msg: &[u8]) -> (r: Vec<(usize, usize)>)
    ensures
        r@ == line_spans(msg@, 0),
{
    let mut spans: Vec<(usize, usize)> = Vec::new();
    let mut start: usize = 0;
    let mut i: usize = 0;
    while i < msg.len()
        invariant
            0 <= start <= i <= msg@.len(),
            forall|k: int| start <= k < i ==> msg@[k] != 0x0Au8,
            spans@ + line_spans(msg@, start as int) == line_spans(msg@, 0),
        decreases msg@.len() - i,
    {
        if msg[i] == 0x0Au8 {
            let end: usize = if i > start && msg[i - 1] == 0x0Du8 { i - 1 } else { i };
            proof {
                lemma_next_newline_skip(msg@, start as int, i as int);
                assert(next_newline(msg@, i as int) == Some(i as int));
                let head = seq![(start, end)];
                assert(line_spans(msg@, start as int) == head + line_spans(msg@, i + 1));
                assert(spans@.push((start, end)) + line_spans(msg@, i + 1) =~= spans@ + (head + line_spans(msg@, i + 1)));
            }
            spans.push((start, end));
            start = i + 1;
        }
        i = i + 1;
    }
    let end: usize = if msg.len() > start && msg[msg.len() - 1] == 0x0Du8 { msg.len() - 1 } else { msg.len() };
    proof {
        lemma_next_newline_skip(msg@, start as int, msg@.len() as int);
        assert(next_newline(msg@, msg@.len() as int) is None);
        assert(line_spans(msg@, start as int) == seq![(start, end)]);
        assert(spans@.push((start, end)) =~= spans@ + seq![(start, end)]);
    }
    spans.push((start, end));
    spans
}

} // verus!
