use vstd::prelude::*;
use crate::consumer::{joined, token_chars, turn_learned, Consumer, ConsumerAction};
use crate::producer::{Producer, ProducerAction};

verus! {

/// How a bounded run of the two tasks ended.
#[derive(Debug, PartialEq, Eq)]
pub enum RunOutcome {
    /// Both tasks finished; this is the song handed to the finalizer.
    Completed(String),
    /// The run stopped with work left: the singer had learned `learned`
    /// words and the counter held `counter`.
    Stalled { learned: usize, counter: u64 },
}

/// Words learned and counter value after `r` rounds of the cooperative
/// scheduler, for `t` words and a dancer of bound `b`. Each round gives the
/// singer its turn, then the dancer one step.
pub open spec fn rounds_state(t: nat, b: nat, r: nat) -> (nat, nat)
    decreases r,
{
    if r == 0 {
        (0, 0)
    } else {
        let (l, p) = rounds_state(t, b, (r - 1) as nat);
        (turn_learned(t, l, p), if p < b { p + 1 } else { p })
    }
}

/// The singer has returned `Finished` within `r` rounds: some turn of it
/// ended with every word learned (a turn that learns the last word ends so).
pub open spec fn singer_done(t: nat, b: nat, r: nat) -> bool {
    r > 0 && rounds_state(t, b, r).0 == t
}

/// The dancer has returned `Finished` within `r` rounds: in the last of them
/// it found every step already published.
pub open spec fn dancer_done(t: nat, b: nat, r: nat) -> bool {
    r > 0 && rounds_state(t, b, (r - 1) as nat).1 == b
}

/// Both tasks have returned `Finished` within `r` rounds.
pub open spec fn run_completes(t: nat, b: nat, r: nat) -> bool {
    singer_done(t, b, r) && dancer_done(t, b, r)
}

/// The song that reaches the finalizer within `r` rounds, if the run ends.
pub open spec fn spec_run(ws: Seq<Seq<char>>, b: nat, r: nat) -> Option<Seq<char>> {
    if run_completes(ws.len(), b, r) {
        Some(joined(ws, ws.len()))
    } else {
        None
    }
}

pub open spec fn min(x: nat, y: nat) -> nat {
    if x <= y {
        x
    } else {
        y
    }
}

/// The state after `r` rounds in closed form: the counter holds `min(r, b)`,
/// and the singer trails it by one round.
pub proof fn lemma_rounds_state_closed(t: nat, b: nat, r: nat)
    ensures
        rounds_state(t, b, r).1 == min(r, b),
        rounds_state(t, b, r).0 == if r == 0 {
            0
        } else {
            min(min((r - 1) as nat, b), t)
        },
    decreases r,
{
    if r > 0 {
        lemma_rounds_state_closed(t, b, (r - 1) as nat);
    }
}

/// When the dancer takes at least as many steps as there are words, the run
/// ends once the dancer has taken all its steps, and the finalizer receives
/// every word in order, each followed by a space.
pub proof fn lemma_enough_steps_completes(ws: Seq<Seq<char>>, b: nat, r: nat)
    requires
        ws.len() <= b,
        b < r,
    ensures
        run_completes(ws.len(), b, r),
        spec_run(ws, b, r) == Some(joined(ws, ws.len())),
{
    lemma_completion_round(ws.len(), b, r);
}

/// The run ends exactly when the dancer's bound covers every word and the
/// rounds go one past the bound: the last round is the one in which the
/// dancer finds all its steps taken.
pub proof fn lemma_completion_round(t: nat, b: nat, r: nat)
    ensures
        run_completes(t, b, r) <==> (t <= b && b < r),
{
    lemma_rounds_state_closed(t, b, r);
    if r > 0 {
        lemma_rounds_state_closed(t, b, (r - 1) as nat);
    }
}

/// When the dancer takes fewer steps than there are words, the run never
/// ends, however many rounds it is given: the singer never gets past the word
/// whose position exceeds the dancer's bound.
pub proof fn lemma_short_bound_never_completes(ws: Seq<Seq<char>>, b: nat, r: nat)
    requires
        b < ws.len(),
    ensures
        !run_completes(ws.len(), b, r),
        spec_run(ws, b, r) is None,
        rounds_state(ws.len(), b, r).0 <= b,
{
    lemma_rounds_state_closed(ws.len(), b, r);
    lemma_completion_round(ws.len(), b, r);
}

/// The counter never decreases: each round raises it by one until it holds
/// the dancer's bound, and it stays there.
pub proof fn lemma_counter_non_decreasing(t: nat, b: nat, r1: nat, r2: nat)
    requires
        r1 <= r2,
    ensures
        rounds_state(t, b, r1).1 <= rounds_state(t, b, r2).1,
        rounds_state(t, b, r2).1 <= b,
        rounds_state(t, b, r1 + 1).1 == if rounds_state(t, b, r1).1 < b {
            rounds_state(t, b, r1).1 + 1
        } else {
            rounds_state(t, b, r1).1
        },
{
    lemma_rounds_state_closed(t, b, r1);
    lemma_rounds_state_closed(t, b, r2);
    lemma_rounds_state_closed(t, b, r1 + 1);
}

/// Running the same words against the same sufficient bound gives the same
/// song every time, whatever number of rounds beyond the bound is allowed.
pub proof fn lemma_rerun_same_result(ws: Seq<Seq<char>>, b: nat, r1: nat, r2: nat)
    requires
        ws.len() <= b,
        b < r1,
        b < r2,
    ensures
        spec_run(ws, b, r1) is Some,
        spec_run(ws, b, r1) == spec_run(ws, b, r2),
{
    lemma_enough_steps_completes(ws, b, r1);
    lemma_enough_steps_completes(ws, b, r2);
}

/// Runs the singer and the dancer for at most `rounds` rounds of a
/// single-threaded cooperative scheduler that gives each task its turn in
/// order. The singer's turn ends when it waits or finishes; the dancer's turn
/// is one step. A task counts as finished once it has returned `Finished`,
/// not when its last step is published. The counter starts at zero.
pub fn run_cooperative(words: Vec<String>, bound: u64, rounds: u64) -> (r: RunOutcome)
    ensures
        (r is Completed) == run_completes(words@.len(), bound as nat, rounds as nat),
        r matches RunOutcome::Completed(s) ==> spec_run(token_chars(words@), bound as nat, rounds as nat)
            == Some(s@),
        r matches RunOutcome::Stalled { learned, counter } ==> (learned as nat, counter as nat)
            == rounds_state(words@.len(), bound as nat, rounds as nat),
{
    let ghost ws = token_chars(words@);
    let ghost t = words@.len();
    let ghost b = bound as nat;
    let mut singer = Consumer::new(words);
    let mut dancer = Producer::new(bound);
    let mut counter: u64 = 0;
    let mut round: u64 = 0;
    let mut singer_finished = false;
    let mut dancer_finished = false;
    while round < rounds
        invariant
            round <= rounds,
            singer_finished == singer_done(t, b, round as nat),
            dancer_finished == dancer_done(t, b, round as nat),
            singer.wf(),
            dancer.wf(),
            singer.spec_tokens() == ws,
            ws.len() == t,
            dancer.spec_bound() == b,
            counter == dancer.spec_published(),
            (singer.spec_learned(), dancer.spec_published()) == rounds_state(t, b, round as nat),
        decreases rounds - round,
    {
        let ghost l0 = singer.spec_learned();
        let ghost d0 = singer_finished;
        loop
            invariant_except_break
                singer_finished == d0,
            invariant
                singer.wf(),
                singer.spec_tokens() == ws,
                ws.len() == t,
                singer.spec_learned() == l0 || (singer.spec_learned() == l0 + 1 && counter == l0
                    + 1 && l0 < t),
                singer.spec_learned() == turn_learned(t, l0, counter as nat) || (
                singer.spec_learned() == l0 && l0 < t && counter == l0 + 1),
            ensures
                singer_finished == (d0 || singer.spec_learned() == t),
                singer.wf(),
                singer.spec_tokens() == ws,
                singer.spec_learned() == turn_learned(t, l0, counter as nat),
            decreases t - singer.spec_learned(),
        {
            match singer.poll(counter) {
                ConsumerAction::Learned(_) => {},
                ConsumerAction::Finished => {
                    singer_finished = true;
                    break ;
                },
                ConsumerAction::Wait { .. } => {
                    break ;
                },
            }
        }
        match dancer.step() {
            ProducerAction::Publish(v) => {
                counter = v;
            },
            ProducerAction::Finished => {
                dancer_finished = true;
            },
        }
        round = round + 1;
    }
    if singer_finished && dancer_finished {
        RunOutcome::Completed(singer.into_song())
    } else {
        RunOutcome::Stalled { learned: singer.learned(), counter }
    }
}

} // verus!
