//! The interactive selection flow: four prompts in fixed order (timing,
//! delay, capture kind, destination), driven as a state machine over
//! prompt outcomes. Cancellation at any step aborts the whole flow.

use vstd::prelude::*;
use crate::options::{
    CaptureKind, SaveHow, spec_kind_of_choice, spec_how_of_choice, kind_of_choice, how_of_choice,
    str_eq,
};

verus! {

pub open spec fn spec_digit_of(c: char) -> int {
    if c == '0' {
        0
    } else if c == '1' {
        1
    } else if c == '2' {
        2
    } else if c == '3' {
        3
    } else if c == '4' {
        4
    } else if c == '5' {
        5
    } else if c == '6' {
        6
    } else if c == '7' {
        7
    } else if c == '8' {
        8
    } else if c == '9' {
        9
    } else {
        10
    }
}

pub open spec fn spec_is_digit(c: char) -> bool {
    spec_digit_of(c) < 10
}

pub open spec fn spec_all_digits(s: Seq<char>) -> bool {
    forall|i: int| 0 <= i < s.len() ==> spec_is_digit(s[i])
}

/// The decimal value of a digit string.
pub open spec fn spec_digits_val(s: Seq<char>) -> int
    decreases s.len(),
{
    if s.len() == 0 {
        0
    } else {
        spec_digits_val(s.take(s.len() - 1)) * 10 + spec_digit_of(s[s.len() - 1])
    }
}

proof fn lemma_digits_val_nonneg(s: Seq<char>)
    ensures
        spec_digits_val(s) >= 0,
    decreases s.len(),
{
    if s.len() > 0 {
        lemma_digits_val_nonneg(s.take(s.len() - 1));
    }
}

proof fn lemma_digits_val_prefix(s: Seq<char>, i: int)
    requires
        0 <= i <= s.len(),
    ensures
        spec_digits_val(s.take(i)) <= spec_digits_val(s),
    decreases s.len() - i,
{
    if i == s.len() {
        assert(s.take(i) =~= s);
    } else {
        let t = s.take(i + 1);
        assert(t.take(i) =~= s.take(i));
        lemma_digits_val_nonneg(s.take(i));
        lemma_digits_val_prefix(s, i + 1);
    }
}

/// Exact decimal parsing of an unsigned 64-bit number: an optional
/// leading plus sign, then one or more digits whose value fits; every
/// other string fails.
pub open spec fn spec_parse_u64(s: Seq<char>) -> Option<u64> {
    let body = if s.len() > 0 && s[0] == '+' {
        s.skip(1)
    } else {
        s
    };
    if body.len() == 0 {
        None
    } else if !spec_all_digits(body) {
        None
    } else if spec_digits_val(body) > u64::MAX {
        None
    } else {
        Some(spec_digits_val(body) as u64)
    }
}

fn digit_val(c: char) -> (d: u8)
    ensures
        d == spec_digit_of(c),
{
    match c {
        '0' => 0,
        '1' => 1,
        '2' => 2,
        '3' => 3,
        '4' => 4,
        '5' => 5,
        '6' => 6,
        '7' => 7,
        '8' => 8,
        '9' => 9,
        _ => 10,
    }
}

pub fn parse_u64(s: &str) -> (r: Option<u64>)
    ensures
        r == spec_parse_u64(s@),
{
    let len = s.unicode_len();
    let start: usize = if len > 0 && s.get_char(0) == '+' {
        1
    } else {
        0
    };
    let ghost body = if start == 1 {
        s@.skip(1)
    } else {
        s@
    };
    proof {
        assert(body.len() == len - start);
        assert(forall|j: int| 0 <= j < body.len() ==> body[j] == s@[start + j]);
    }
    if start == len {
        return None;
    }
    let mut acc: u64 = 0;
    let mut i: usize = start;
    proof {
        assert(body.take(0) =~= Seq::<char>::empty());
    }
    while i < len
        invariant
            start <= i <= len,
            len == s@.len(),
            start <= 1,
            (start == 1) == (s@.len() > 0 && s@[0] == '+'),
            body == if start == 1 {
                s@.skip(1)
            } else {
                s@
            },
            body.len() == len - start,
            forall|j: int| 0 <= j < body.len() ==> body[j] == s@[start + j],
            spec_all_digits(body.take(i - start)),
            acc == spec_digits_val(body.take(i - start)),
        decreases len - i,
    {
        let ghost k: int = i - start;
        let d = digit_val(s.get_char(i));
        if d >= 10 {
            proof {
                assert(body[k] == s@[i as int]);
                assert(!spec_is_digit(body[k]));
                assert(!spec_all_digits(body)) by {
                    if spec_all_digits(body) {
                        assert(spec_is_digit(body[k]));
                    }
                }
            }
            return None;
        }
        let limit = (u64::MAX - (d as u64)) / 10;
        proof {
            assert(body.take(k + 1).take(k) =~= body.take(k));
            assert(body.take(k + 1)[k] == body[k]);
            assert(spec_digits_val(body.take(k + 1)) == acc * 10 + spec_digit_of(body[k]));
        }
        if acc > limit {
            proof {
                assert(limit * 10 <= u64::MAX - d && limit * 10 + 9 >= u64::MAX - d) by (
                nonlinear_arith)
                    requires
                        limit == (u64::MAX - (d as u64)) / 10,
                        d < 10,
                ;
                assert(acc * 10 >= (limit + 1) * 10);
                assert((limit + 1) * 10 == limit * 10 + 10);
                assert(spec_digits_val(body.take(k + 1)) > u64::MAX);
                if spec_all_digits(body) {
                    lemma_digits_val_prefix(body, k + 1);
                    assert(spec_digits_val(body) > u64::MAX);
                }
            }
            return None;
        }
        proof {
            assert(acc * 10 <= limit * 10);
            assert(limit * 10 <= u64::MAX - d) by (nonlinear_arith)
                requires
                    limit == (u64::MAX - (d as u64)) / 10,
                    d < 10,
            ;
        }
        acc = acc * 10 + (d as u64);
        proof {
            assert(spec_is_digit(body[k]));
            assert(spec_all_digits(body.take(k + 1))) by {
                assert(forall|j: int|
                    0 <= j < k + 1 ==> spec_is_digit(#[trigger] body.take(k + 1)[j]));
            }
        }
        i += 1;
    }
    proof {
        assert(body.take(len - start) =~= body);
        assert(spec_parse_u64(s@) == Some(acc));
    }
    Some(acc)
}

/// `s` without its trailing `s` characters, as the delay menu entries
/// carry a seconds suffix.
pub open spec fn spec_strip_trailing_s(s: Seq<char>) -> Seq<char>
    decreases s.len(),
{
    if s.len() == 0 {
        s
    } else if s[s.len() - 1] == 's' {
        spec_strip_trailing_s(s.take(s.len() - 1))
    } else {
        s
    }
}

proof fn lemma_strip_trailing_s_take(s: Seq<char>, b: int)
    requires
        0 <= b <= s.len(),
        forall|j: int| b <= j < s.len() ==> s[j] == 's',
        b > 0 ==> s[b - 1] != 's',
    ensures
        spec_strip_trailing_s(s) == s.take(b),
    decreases s.len() - b,
{
    if b == s.len() {
        assert(s.take(b) =~= s);
    } else {
        lemma_strip_trailing_s_take(s.take(s.len() - 1), b);
        assert(s.take(s.len() - 1).take(b) =~= s.take(b));
    }
}

/// The delay in seconds named by a timer menu entry: the entry without
/// its trailing `s` suffix parsed as a number, five when parsing fails.
pub open spec fn spec_delay_of(s: Seq<char>) -> u64 {
    match spec_parse_u64(spec_strip_trailing_s(s)) {
        Some(n) => n,
        None => 5,
    }
}

pub fn parse_delay(s: &str) -> (d: u64)
    ensures
        d == spec_delay_of(s@),
{
    let len = s.unicode_len();
    let mut b: usize = len;
    while b > 0 && s.get_char(b - 1) == 's'
        invariant
            b <= len,
            len == s@.len(),
            forall|j: int| b <= j < len ==> s@[j] == 's',
        decreases b,
    {
        b -= 1;
    }
    proof {
        lemma_strip_trailing_s_take(s@, b as int);
    }
    let t = s.substring_char(0, b);
    proof {
        assert(t@ =~= s@.take(b as int));
    }
    match parse_u64(t) {
        Some(n) => n,
        None => 5,
    }
}

/// The outcome of one menu prompt: the selected entry, or cancellation.
#[derive(Debug)]
pub enum PromptEvent {
    Chosen(String),
    Cancelled,
}

/// The interactive flow's position between prompts.
#[derive(Debug, Clone, Copy, PartialEq, Eq, Structural)]
pub enum FlowState {
    /// Asking whether to capture immediately or after a delay.
    AskTiming,
    /// Asking which timer to use (reached only from a `Delayed` answer).
    AskDelay,
    /// Asking which screen region to capture.
    AskKind { delay: u64 },
    /// Asking what to do with the captured image.
    AskHow { delay: u64, kind: CaptureKind },
    /// All four answers gathered; the capture request is decided.
    Done { delay: u64, kind: CaptureKind, how: SaveHow },
    /// A prompt was cancelled; the flow is abandoned.
    Cancelled,
}

/// One step of the flow: consume a prompt outcome in the current state.
/// Terminal states absorb every further event.
pub open spec fn spec_flow_step(st: FlowState, ev: PromptEvent) -> FlowState {
    match st {
        FlowState::AskTiming => match ev {
            PromptEvent::Chosen(s) => if s@ == "Delayed"@ {
                FlowState::AskDelay
            } else {
                FlowState::AskKind { delay: 0 }
            },
            PromptEvent::Cancelled => FlowState::Cancelled,
        },
        FlowState::AskDelay => match ev {
            PromptEvent::Chosen(s) => FlowState::AskKind { delay: spec_delay_of(s@) },
            PromptEvent::Cancelled => FlowState::Cancelled,
        },
        FlowState::AskKind { delay } => match ev {
            PromptEvent::Chosen(s) => FlowState::AskHow { delay, kind: spec_kind_of_choice(s@) },
            PromptEvent::Cancelled => FlowState::Cancelled,
        },
        FlowState::AskHow { delay, kind } => match ev {
            PromptEvent::Chosen(s) => FlowState::Done {
                delay,
                kind,
                how: spec_how_of_choice(s@),
            },
            PromptEvent::Cancelled => FlowState::Cancelled,
        },
        FlowState::Done { .. } => st,
        FlowState::Cancelled => st,
    }
}

pub fn flow_step(st: FlowState, ev: &PromptEvent) -> (r: FlowState)
    ensures
        r == spec_flow_step(st, *ev),
{
    match st {
        FlowState::AskTiming => match ev {
            PromptEvent::Chosen(s) => if str_eq(s.as_str(), "Delayed") {
                FlowState::AskDelay
            } else {
                FlowState::AskKind { delay: 0 }
            },
            PromptEvent::Cancelled => FlowState::Cancelled,
        },
        FlowState::AskDelay => match ev {
            PromptEvent::Chosen(s) => FlowState::AskKind { delay: parse_delay(s.as_str()) },
            PromptEvent::Cancelled => FlowState::Cancelled,
        },
        FlowState::AskKind { delay } => match ev {
            PromptEvent::Chosen(s) => FlowState::AskHow {
                delay,
                kind: kind_of_choice(s.as_str()),
            },
            PromptEvent::Cancelled => FlowState::Cancelled,
        },
        FlowState::AskHow { delay, kind } => match ev {
            PromptEvent::Chosen(s) => FlowState::Done {
                delay,
                kind,
                how: how_of_choice(s.as_str()),
            },
            PromptEvent::Cancelled => FlowState::Cancelled,
        },
        FlowState::Done { delay, kind, how } => FlowState::Done { delay, kind, how },
        FlowState::Cancelled => FlowState::Cancelled,
    }
}

/// The prompt pending in a state: its title and ordered option list.
/// Terminal states prompt nothing.
pub fn flow_prompt(st: &FlowState) -> (r: Option<(String, Vec<String>)>)
    ensures
        st is AskTiming ==> (r matches Some(p) && p.0@ == "Take screenshot"@ && p.1@.len() == 2
            && p.1@[0]@ == "Immediate"@ && p.1@[1]@ == "Delayed"@),
        st is AskDelay ==> (r matches Some(p) && p.0@ == "Choose timer"@ && p.1@.len() == 5
            && p.1@[0]@ == "5s"@ && p.1@[1]@ == "10s"@ && p.1@[2]@ == "20s"@ && p.1@[3]@ == "30s"@
            && p.1@[4]@ == "60s"@),
        st is AskKind ==> (r matches Some(p) && p.0@ == "Type of screenshot"@ && p.1@.len() == 3
            && p.1@[0]@ == "Capture Everything"@ && p.1@[1]@ == "Capture Active Display"@
            && p.1@[2]@ == "Capture Selection"@),
        st is AskHow ==> (r matches Some(p) && p.0@ == "How to save"@ && p.1@.len() == 4
            && p.1@[0]@ == "Copy"@ && p.1@[1]@ == "Save"@ && p.1@[2]@ == "Copy & Save"@
            && p.1@[3]@ == "Edit"@),
        st is Done ==> r is None,
        st is Cancelled ==> r is None,
{
    match st {
        FlowState::AskTiming => {
            let mut opts: Vec<String> = Vec::new();
            opts.push(String::from_str("Immediate"));
            opts.push(String::from_str("Delayed"));
            Some((String::from_str("Take screenshot"), opts))
        },
        FlowState::AskDelay => {
            let mut opts: Vec<String> = Vec::new();
            opts.push(String::from_str("5s"));
            opts.push(String::from_str("10s"));
            opts.push(String::from_str("20s"));
            opts.push(String::from_str("30s"));
            opts.push(String::from_str("60s"));
            Some((String::from_str("Choose timer"), opts))
        },
        FlowState::AskKind { .. } => {
            let mut opts: Vec<String> = Vec::new();
            opts.push(String::from_str("Capture Everything"));
            opts.push(String::from_str("Capture Active Display"));
            opts.push(String::from_str("Capture Selection"));
            Some((String::from_str("Type of screenshot"), opts))
        },
        FlowState::AskHow { .. } => {
            let mut opts: Vec<String> = Vec::new();
            opts.push(String::from_str("Copy"));
            opts.push(String::from_str("Save"));
            opts.push(String::from_str("Copy & Save"));
            opts.push(String::from_str("Edit"));
            Some((String::from_str("How to save"), opts))
        },
        FlowState::Done { .. } => None,
        FlowState::Cancelled => None,
    }
}

/// The flow state after consuming a sequence of prompt outcomes.
pub open spec fn spec_run_flow(st: FlowState, evs: Seq<PromptEvent>) -> FlowState
    decreases evs.len(),
{
    if evs.len() == 0 {
        st
    } else {
        spec_run_flow(spec_flow_step(st, evs[0]), evs.skip(1))
    }
}

proof fn lemma_run_flow_snoc(st: FlowState, evs: Seq<PromptEvent>, y: PromptEvent)
    ensures
        spec_run_flow(st, evs.push(y)) == spec_flow_step(spec_run_flow(st, evs), y),
    decreases evs.len(),
{
    if evs.len() == 0 {
        assert(evs.push(y)[0] == y);
        assert(evs.push(y).skip(1) =~= Seq::<PromptEvent>::empty());
        assert(spec_run_flow(st, evs.push(y)) == spec_run_flow(
            spec_flow_step(st, y),
            evs.push(y).skip(1),
        ));
    } else {
        assert(evs.push(y)[0] == evs[0]);
        assert(evs.push(y).skip(1) =~= evs.skip(1).push(y));
        assert(spec_run_flow(st, evs.push(y)) == spec_run_flow(
            spec_flow_step(st, evs[0]),
            evs.skip(1).push(y),
        ));
        lemma_run_flow_snoc(spec_flow_step(st, evs[0]), evs.skip(1), y);
    }
}

proof fn lemma_run_flow_split(st: FlowState, evs: Seq<PromptEvent>, i: int)
    requires
        0 <= i <= evs.len(),
    ensures
        spec_run_flow(st, evs) == spec_run_flow(spec_run_flow(st, evs.take(i)), evs.skip(i)),
    decreases i,
{
    if i == 0 {
        assert(evs.take(0) =~= Seq::<PromptEvent>::empty());
        assert(evs.skip(0) =~= evs);
    } else {
        assert(evs.take(i)[0] == evs[0]);
        assert(evs.take(i).skip(1) =~= evs.skip(1).take(i - 1));
        assert(evs.skip(i) =~= evs.skip(1).skip(i - 1));
        lemma_run_flow_split(spec_flow_step(st, evs[0]), evs.skip(1), i - 1);
    }
}

proof fn lemma_cancelled_absorbs(evs: Seq<PromptEvent>)
    ensures
        spec_run_flow(FlowState::Cancelled, evs) == FlowState::Cancelled,
    decreases evs.len(),
{
    if evs.len() > 0 {
        lemma_cancelled_absorbs(evs.skip(1));
    }
}

/// Cancelling at any prompt step abandons the whole flow: if some event
/// is a cancellation and the flow had not already gathered all four
/// answers by then, the outcome is `Cancelled` — no capture request is
/// ever decided, so no capture and no relocation can follow.
pub proof fn lemma_cancellation_aborts(evs: Seq<PromptEvent>, i: int)
    requires
        0 <= i < evs.len(),
        evs[i] is Cancelled,
        !(spec_run_flow(FlowState::AskTiming, evs.take(i)) is Done),
    ensures
        spec_run_flow(FlowState::AskTiming, evs) == FlowState::Cancelled,
{
    lemma_run_flow_split(FlowState::AskTiming, evs, i);
    let st = spec_run_flow(FlowState::AskTiming, evs.take(i));
    assert(evs.skip(i)[0] == evs[i]);
    assert(spec_flow_step(st, evs[i]) == FlowState::Cancelled);
    assert(evs.skip(i).skip(1) =~= evs.skip(i + 1));
    lemma_cancelled_absorbs(evs.skip(i + 1));
}

/// The whole interactive controller in one statement: a `Delayed`
/// timing answer makes exactly four prompts decide the capture request
/// pointwise (timer, region, destination); any other timing answer
/// makes three decide it with no delay.
pub proof fn lemma_flow_sequencing(w: String, t: String, k: String, h: String)
    ensures
        w@ == "Delayed"@ ==> spec_run_flow(
            FlowState::AskTiming,
            seq![
                PromptEvent::Chosen(w),
                PromptEvent::Chosen(t),
                PromptEvent::Chosen(k),
                PromptEvent::Chosen(h),
            ],
        ) == (FlowState::Done {
            delay: spec_delay_of(t@),
            kind: spec_kind_of_choice(k@),
            how: spec_how_of_choice(h@),
        }),
        w@ != "Delayed"@ ==> spec_run_flow(
            FlowState::AskTiming,
            seq![PromptEvent::Chosen(w), PromptEvent::Chosen(k), PromptEvent::Chosen(h)],
        ) == (FlowState::Done {
            delay: 0,
            kind: spec_kind_of_choice(k@),
            how: spec_how_of_choice(h@),
        }),
{
    if w@ == "Delayed"@ {
        let evs = seq![
            PromptEvent::Chosen(w),
            PromptEvent::Chosen(t),
            PromptEvent::Chosen(k),
            PromptEvent::Chosen(h),
        ];
        let s1 = seq![PromptEvent::Chosen(t), PromptEvent::Chosen(k), PromptEvent::Chosen(h)];
        let s2 = seq![PromptEvent::Chosen(k), PromptEvent::Chosen(h)];
        let s3 = seq![PromptEvent::Chosen(h)];
        let s4 = Seq::<PromptEvent>::empty();
        assert(evs.skip(1) =~= s1);
        assert(s1.skip(1) =~= s2);
        assert(s2.skip(1) =~= s3);
        assert(s3.skip(1) =~= s4);
        assert(evs[0] == PromptEvent::Chosen(w));
        assert(spec_run_flow(FlowState::AskTiming, evs) == spec_run_flow(FlowState::AskDelay, s1));
        assert(spec_run_flow(FlowState::AskDelay, s1) == spec_run_flow(
            FlowState::AskKind { delay: spec_delay_of(t@) },
            s2,
        ));
        assert(spec_run_flow(FlowState::AskKind { delay: spec_delay_of(t@) }, s2)
            == spec_run_flow(
            FlowState::AskHow { delay: spec_delay_of(t@), kind: spec_kind_of_choice(k@) },
            s3,
        ));
        assert(s3[0] == PromptEvent::Chosen(h));
        assert(spec_run_flow(
            FlowState::AskHow { delay: spec_delay_of(t@), kind: spec_kind_of_choice(k@) },
            s3,
        ) == spec_run_flow(
            FlowState::Done {
                delay: spec_delay_of(t@),
                kind: spec_kind_of_choice(k@),
                how: spec_how_of_choice(h@),
            },
            s4,
        ));
    } else {
        let evs = seq![PromptEvent::Chosen(w), PromptEvent::Chosen(k), PromptEvent::Chosen(h)];
        let s1 = seq![PromptEvent::Chosen(k), PromptEvent::Chosen(h)];
        let s2 = seq![PromptEvent::Chosen(h)];
        let s3 = Seq::<PromptEvent>::empty();
        assert(evs.skip(1) =~= s1);
        assert(s1.skip(1) =~= s2);
        assert(s2.skip(1) =~= s3);
        assert(evs[0] == PromptEvent::Chosen(w));
        assert(spec_run_flow(FlowState::AskTiming, evs) == spec_run_flow(
            FlowState::AskKind { delay: 0 },
            s1,
        ));
        assert(spec_run_flow(FlowState::AskKind { delay: 0 }, s1) == spec_run_flow(
            FlowState::AskHow { delay: 0, kind: spec_kind_of_choice(k@) },
            s2,
        ));
        assert(s2[0] == PromptEvent::Chosen(h));
        assert(spec_run_flow(FlowState::AskHow { delay: 0, kind: spec_kind_of_choice(k@) }, s2)
            == spec_run_flow(
            FlowState::Done { delay: 0, kind: spec_kind_of_choice(k@), how: spec_how_of_choice(h@) },
            s3,
        ));
    }
}

/// Read a finished flow off into a capture decision: the gathered
/// answers on completion, the cancellation error on abandonment, and
/// nothing while prompts are still pending.
pub fn flow_decision(st: &FlowState) -> (r: Option<
    Result<(u64, CaptureKind, SaveHow), crate::FlowError>,
>)
    ensures
        *st matches FlowState::Done { delay, kind, how } ==> (r matches Some(d) && d
            == Ok::<_, crate::FlowError>((delay, kind, how))),
        st is Cancelled ==> (r matches Some(d) && d matches Err(crate::FlowError::PromptCancelled)),
        !(st is Done) && !(st is Cancelled) ==> r is None,
{
    match st {
        FlowState::Done { delay, kind, how } => Some(Ok((*delay, *kind, *how))),
        FlowState::Cancelled => Some(Err(crate::FlowError::PromptCancelled)),
        _ => None,
    }
}

/// Run the whole interactive flow over a sequence of prompt outcomes,
/// starting at the timing question.
pub fn run_interactive(events: &Vec<PromptEvent>) -> (r: FlowState)
    ensures
        r == spec_run_flow(FlowState::AskTiming, events@),
{
    let n = events.len();
    let mut st = FlowState::AskTiming;
    let mut i: usize = 0;
    proof {
        assert(events@.take(0) =~= Seq::<PromptEvent>::empty());
    }
    while i < n
        invariant
            n == events@.len(),
            i <= n,
            st == spec_run_flow(FlowState::AskTiming, events@.take(i as int)),
        decreases n - i,
    {
        st = flow_step(st, &events[i]);
        proof {
            lemma_run_flow_snoc(FlowState::AskTiming, events@.take(i as int), events@[i as int]);
            assert(events@.take(i + 1) =~= events@.take(i as int).push(events@[i as int]));
        }
        i += 1;
    }
    proof {
        assert(events@.take(n as int) =~= events@);
    }
    st
}

} // verus!
