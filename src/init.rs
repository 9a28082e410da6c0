use crate::dcs::{address_mode_of, Command, SetAddressMode, PIXEL_FORMAT_16BPP};
use crate::error::InitError;
use crate::options::ModelOptions;
use vstd::prelude::*;

verus! {

/// How long the reset line is held low in a hard reset, in microseconds.
pub const RESET_PULSE_US: u32 = 10;

/// Settle time after a reset, in microseconds.
pub const RESET_SETTLE_US: u32 = 150_000;

/// Wait after leaving sleep mode, in microseconds.
pub const SLEEP_EXIT_US: u32 = 10_000;

/// Wait after setting the pixel format, in microseconds.
pub const PIXEL_FORMAT_US: u32 = 10_000;

/// Wait after entering normal mode, in microseconds.
pub const NORMAL_MODE_US: u32 = 10_000;

/// Wait after switching the display on, in microseconds; the panel's charge
/// pumps must settle before pixel data arrives.
pub const DISPLAY_ON_US: u32 = 120_000;

/// One piece of outside work in the initialization sequence.
#[derive(Clone, Copy, Debug, PartialEq, Eq, Structural)]
pub enum InitStep {
    /// Drive the reset line low (asserted).
    ResetLow,
    /// Drive the reset line high (released).
    ResetHigh,
    /// Wait the given number of microseconds.
    DelayUs(u32),
    /// Send a command, followed by its parameters.
    Send(Command),
}

/// The steps that reset the controller: a pulse on the reset line when one
/// is available, otherwise the soft-reset command.
pub open spec fn reset_steps(hard_reset: bool) -> Seq<InitStep> {
    if hard_reset {
        seq![InitStep::ResetLow, InitStep::DelayUs(RESET_PULSE_US), InitStep::ResetHigh]
    } else {
        seq![InitStep::Send(Command::SoftReset)]
    }
}

/// The whole initialization sequence for the given options.
pub open spec fn init_plan(o: ModelOptions, hard_reset: bool) -> Seq<InitStep> {
    reset_steps(hard_reset) + seq![
        InitStep::DelayUs(RESET_SETTLE_US),
        InitStep::Send(Command::ExitSleepMode),
        InitStep::DelayUs(SLEEP_EXIT_US),
        InitStep::Send(Command::SetScrollArea(0, o.native_size.1, 0)),
        InitStep::Send(Command::SetAddressMode(SetAddressMode { bits: address_mode_of(o) })),
        InitStep::Send(Command::SetInvertMode(o.invert_colors)),
        InitStep::Send(Command::SetPixelFormat(PIXEL_FORMAT_16BPP)),
        InitStep::DelayUs(PIXEL_FORMAT_US),
        InitStep::Send(Command::EnterNormalMode),
        InitStep::DelayUs(NORMAL_MODE_US),
        InitStep::Send(Command::SetDisplayOn),
        InitStep::DelayUs(DISPLAY_ON_US),
    ]
}

/// The commands among `steps`, in order.
pub open spec fn sent_commands(steps: Seq<InitStep>) -> Seq<Command>
    decreases steps.len(),
{
    if steps.len() == 0 {
        Seq::empty()
    } else {
        let rest = sent_commands(steps.drop_first());
        match steps[0] {
            InitStep::Send(c) => seq![c] + rest,
            _ => rest,
        }
    }
}

/// Whatever the options, the commands of the initialization sequence come in
/// one fixed order: soft reset (only without a reset line, whose pulse then
/// opens the sequence), sleep exit, scroll area, address mode, invert mode,
/// pixel format, normal mode, display on.
pub proof fn init_command_order(o: ModelOptions, hard_reset: bool)
    ensures
        sent_commands(init_plan(o, hard_reset)) == (if hard_reset {
            Seq::<Command>::empty()
        } else {
            seq![Command::SoftReset]
        }) + seq![
            Command::ExitSleepMode,
            Command::SetScrollArea(0, o.native_size.1, 0),
            Command::SetAddressMode(SetAddressMode { bits: address_mode_of(o) }),
            Command::SetInvertMode(o.invert_colors),
            Command::SetPixelFormat(PIXEL_FORMAT_16BPP),
            Command::EnterNormalMode,
            Command::SetDisplayOn,
        ],
        hard_reset ==> init_plan(o, hard_reset).take(3) == seq![
            InitStep::ResetLow,
            InitStep::DelayUs(RESET_PULSE_US),
            InitStep::ResetHigh,
        ],
{
    broadcast use lemma_sent_commands_push, lemma_sent_commands_concat, lemma_sent_commands_single;

    let p = init_plan(o, hard_reset);
    let tail = seq![
        InitStep::DelayUs(RESET_SETTLE_US),
        InitStep::Send(Command::ExitSleepMode),
        InitStep::DelayUs(SLEEP_EXIT_US),
        InitStep::Send(Command::SetScrollArea(0, o.native_size.1, 0)),
        InitStep::Send(Command::SetAddressMode(SetAddressMode { bits: address_mode_of(o) })),
        InitStep::Send(Command::SetInvertMode(o.invert_colors)),
        InitStep::Send(Command::SetPixelFormat(PIXEL_FORMAT_16BPP)),
        InitStep::DelayUs(PIXEL_FORMAT_US),
        InitStep::Send(Command::EnterNormalMode),
        InitStep::DelayUs(NORMAL_MODE_US),
        InitStep::Send(Command::SetDisplayOn),
        InitStep::DelayUs(DISPLAY_ON_US),
    ];
    assert(tail =~= Seq::<InitStep>::empty()
        .push(InitStep::DelayUs(RESET_SETTLE_US))
        .push(InitStep::Send(Command::ExitSleepMode))
        .push(InitStep::DelayUs(SLEEP_EXIT_US))
        .push(InitStep::Send(Command::SetScrollArea(0, o.native_size.1, 0)))
        .push(InitStep::Send(Command::SetAddressMode(SetAddressMode { bits: address_mode_of(o) })))
        .push(InitStep::Send(Command::SetInvertMode(o.invert_colors)))
        .push(InitStep::Send(Command::SetPixelFormat(PIXEL_FORMAT_16BPP)))
        .push(InitStep::DelayUs(PIXEL_FORMAT_US))
        .push(InitStep::Send(Command::EnterNormalMode))
        .push(InitStep::DelayUs(NORMAL_MODE_US))
        .push(InitStep::Send(Command::SetDisplayOn))
        .push(InitStep::DelayUs(DISPLAY_ON_US)));
    assert(p == reset_steps(hard_reset) + tail);
    assert(sent_commands(Seq::<InitStep>::empty()) == Seq::<Command>::empty());
    assert(sent_commands(tail) =~= seq![
        Command::ExitSleepMode,
        Command::SetScrollArea(0, o.native_size.1, 0),
        Command::SetAddressMode(SetAddressMode { bits: address_mode_of(o) }),
        Command::SetInvertMode(o.invert_colors),
        Command::SetPixelFormat(PIXEL_FORMAT_16BPP),
        Command::EnterNormalMode,
        Command::SetDisplayOn,
    ]);
    if hard_reset {
        assert(reset_steps(hard_reset) =~= Seq::<InitStep>::empty()
            .push(InitStep::ResetLow)
            .push(InitStep::DelayUs(RESET_PULSE_US))
            .push(InitStep::ResetHigh));
        assert(sent_commands(reset_steps(hard_reset)) =~= Seq::<Command>::empty());
    } else {
        assert(sent_commands(reset_steps(hard_reset)) =~= seq![Command::SoftReset]);
    }
    assert(sent_commands(p) =~= (if hard_reset {
        Seq::<Command>::empty()
    } else {
        seq![Command::SoftReset]
    }) + seq![
        Command::ExitSleepMode,
        Command::SetScrollArea(0, o.native_size.1, 0),
        Command::SetAddressMode(SetAddressMode { bits: address_mode_of(o) }),
        Command::SetInvertMode(o.invert_colors),
        Command::SetPixelFormat(PIXEL_FORMAT_16BPP),
        Command::EnterNormalMode,
        Command::SetDisplayOn,
    ]);
    if hard_reset {
        assert(p.take(3) =~= seq![
            InitStep::ResetLow,
            InitStep::DelayUs(RESET_PULSE_US),
            InitStep::ResetHigh,
        ]);
    }
}

/// The commands of `s` with one step appended.
broadcast proof fn lemma_sent_commands_push(s: Seq<InitStep>, x: InitStep)
    ensures
        #[trigger] sent_commands(s.push(x)) == sent_commands(s) + sent_commands(seq![x]),
    decreases s.len(),
{
    if s.len() == 0 {
        assert(s.push(x) =~= seq![x]);
    } else {
        assert(s.push(x).drop_first() =~= s.drop_first().push(x));
        lemma_sent_commands_push(s.drop_first(), x);
        assert(seq![x].drop_first() =~= Seq::<InitStep>::empty());
        match s[0] {
            InitStep::Send(c) => {
                assert(seq![c] + sent_commands(s.drop_first()) + sent_commands(seq![x]) =~= seq![c]
                    + (sent_commands(s.drop_first()) + sent_commands(seq![x])));
            },
            _ => {},
        }
    }
}

/// The commands of a single step.
broadcast proof fn lemma_sent_commands_single(x: InitStep)
    ensures
        #[trigger] sent_commands(seq![x]) == (match x {
            InitStep::Send(c) => seq![c],
            _ => Seq::<Command>::empty(),
        }),
{
    reveal_with_fuel(sent_commands, 2);
    assert(seq![x].drop_first() =~= Seq::<InitStep>::empty());
    match x {
        InitStep::Send(c) => {
            assert(seq![c] + Seq::<Command>::empty() =~= seq![c]);
        },
        _ => {},
    }
}

/// The commands of a concatenation are those of its parts.
broadcast proof fn lemma_sent_commands_concat(a: Seq<InitStep>, b: Seq<InitStep>)
    ensures
        #[trigger] sent_commands(a + b) == sent_commands(a) + sent_commands(b),
    decreases a.len(),
{
    if a.len() == 0 {
        assert(a + b =~= b);
        assert(Seq::<Command>::empty() + sent_commands(b) =~= sent_commands(b));
    } else {
        assert((a + b).drop_first() =~= a.drop_first() + b);
        lemma_sent_commands_concat(a.drop_first(), b);
        match a[0] {
            InitStep::Send(c) => {
                assert(seq![c] + sent_commands(a.drop_first()) + sent_commands(b) =~= seq![c] + (
                sent_commands(a.drop_first()) + sent_commands(b)));
            },
            _ => {},
        }
    }
}

/// The steps of the initialization sequence for the given options.
pub fn init_steps(options: &ModelOptions, hard_reset: bool) -> (r: Vec<InitStep>)
    ensures
        r@ == init_plan(*options, hard_reset),
{
    let mut r: Vec<InitStep> = Vec::new();
    if hard_reset {
        r.push(InitStep::ResetLow);
        r.push(InitStep::DelayUs(RESET_PULSE_US));
        r.push(InitStep::ResetHigh);
    } else {
        r.push(InitStep::Send(Command::SoftReset));
    }
    let madctl = SetAddressMode::from_options(options);
    r.push(InitStep::DelayUs(RESET_SETTLE_US));
    r.push(InitStep::Send(Command::ExitSleepMode));
    r.push(InitStep::DelayUs(SLEEP_EXIT_US));
    r.push(InitStep::Send(Command::scroll_area(options)));
    r.push(InitStep::Send(Command::SetAddressMode(madctl)));
    r.push(InitStep::Send(Command::SetInvertMode(options.invert_colors)));
    r.push(InitStep::Send(Command::SetPixelFormat(PIXEL_FORMAT_16BPP)));
    r.push(InitStep::DelayUs(PIXEL_FORMAT_US));
    r.push(InitStep::Send(Command::EnterNormalMode));
    r.push(InitStep::DelayUs(NORMAL_MODE_US));
    r.push(InitStep::Send(Command::SetDisplayOn));
    r.push(InitStep::DelayUs(DISPLAY_ON_US));
    assert(r@ =~= init_plan(*options, hard_reset));
    r
}

/// Abstract state of an initialization in progress.
pub struct InitState {
    /// The sequence being run.
    pub steps: Seq<InitStep>,
    /// How many steps have been handed out.
    pub issued: nat,
    /// Whether a step failed.
    pub aborted: bool,
    /// The address mode reported when the sequence completes.
    pub address_mode: SetAddressMode,
}

/// What the caller does next.
#[derive(Clone, Copy, Debug, PartialEq, Eq, Structural)]
pub enum InitAction {
    /// Perform this step, then report its outcome.
    Perform(InitStep),
    /// The sequence completed; the address mode that was applied.
    Finished(SetAddressMode),
    /// A step failed earlier; nothing more is to be done.
    Halted,
}

/// The state after reporting an outcome (`failed` when the last step
/// failed) to state `s`.
pub open spec fn next_state(s: InitState, failed: bool) -> InitState {
    if s.aborted {
        s
    } else if failed {
        InitState { aborted: true, ..s }
    } else if s.issued < s.steps.len() {
        InitState { issued: s.issued + 1, ..s }
    } else {
        s
    }
}

/// The action handed out in state `s` when the last step succeeded.
pub open spec fn action_of(s: InitState) -> InitAction {
    if s.aborted {
        InitAction::Halted
    } else if s.issued < s.steps.len() {
        InitAction::Perform(s.steps[s.issued as int])
    } else {
        InitAction::Finished(s.address_mode)
    }
}

/// The state reached from `s` by reporting the outcomes `failures` in turn.
pub open spec fn run(s: InitState, failures: Seq<bool>) -> InitState
    decreases failures.len(),
{
    if failures.len() == 0 {
        s
    } else {
        run(next_state(s, failures[0]), failures.drop_first())
    }
}

/// The state in which the sequence for `o` starts.
pub open spec fn initial_state(o: ModelOptions, hard_reset: bool) -> InitState {
    InitState {
        steps: init_plan(o, hard_reset),
        issued: 0,
        aborted: false,
        address_mode: SetAddressMode { bits: address_mode_of(o) },
    }
}

/// `n` successful outcomes in a row.
pub open spec fn successes(n: nat) -> Seq<bool> {
    Seq::new(n, |i: int| false)
}

/// A stopped machine stays stopped, whatever is reported to it.
proof fn lemma_run_aborted(s: InitState, later: Seq<bool>)
    requires
        s.aborted,
    ensures
        run(s, later) == s,
    decreases later.len(),
{
    if later.len() > 0 {
        lemma_run_aborted(next_state(s, later[0]), later.drop_first());
    }
}

/// Successful outcomes advance a running machine one step each.
proof fn lemma_run_successes(s: InitState, n: nat)
    requires
        !s.aborted,
        s.issued + n <= s.steps.len(),
    ensures
        run(s, successes(n)) == (InitState { issued: s.issued + n, ..s }),
    decreases n,
{
    if n > 0 {
        let t = next_state(s, false);
        assert(successes(n).drop_first() =~= successes((n - 1) as nat));
        lemma_run_successes(t, (n - 1) as nat);
    } else {
        assert(InitState { issued: s.issued + n, ..s } == s);
    }
}

/// Once a step fails the sequence is over: whatever outcomes are reported
/// afterwards, no further step is handed out and no more steps count as
/// issued than before the failure.
pub proof fn failure_stops_sequence(s: InitState, later: Seq<bool>)
    ensures
        run(next_state(s, true), later) == (InitState { aborted: true, ..s }),
        action_of(run(next_state(s, true), later)) == InitAction::Halted,
{
    assert(next_state(s, true) == (InitState { aborted: true, ..s }));
    lemma_run_aborted(next_state(s, true), later);
}

/// When every step succeeds, the machine hands out the steps of the
/// sequence for `o` one after the other, in order, and then finishes with
/// the address mode computed from `o`.
pub proof fn successful_init_runs_plan(o: ModelOptions, hard_reset: bool)
    ensures
        forall|i: nat|
            i < init_plan(o, hard_reset).len() ==> action_of(
                #[trigger] run(initial_state(o, hard_reset), successes(i)),
            ) == InitAction::Perform(init_plan(o, hard_reset)[i as int]),
        action_of(
            run(initial_state(o, hard_reset), successes(init_plan(o, hard_reset).len())),
        ) == InitAction::Finished(SetAddressMode { bits: address_mode_of(o) }),
{
    let s0 = initial_state(o, hard_reset);
    assert forall|i: nat| i < init_plan(o, hard_reset).len() implies action_of(
        #[trigger] run(s0, successes(i)),
    ) == InitAction::Perform(init_plan(o, hard_reset)[i as int]) by {
        lemma_run_successes(s0, i);
    }
    lemma_run_successes(s0, init_plan(o, hard_reset).len());
}

/// The initialization sequence as a state machine: it hands out one step at
/// a time, is told whether the step succeeded, and stops at the first
/// failure.
pub struct Initializer {
    steps: Vec<InitStep>,
    issued: usize,
    aborted: bool,
    address_mode: SetAddressMode,
}

impl View for Initializer {
    type V = InitState;

    closed spec fn view(&self) -> InitState {
        InitState {
            steps: self.steps@,
            issued: self.issued as nat,
            aborted: self.aborted,
            address_mode: self.address_mode,
        }
    }
}

impl Initializer {
    /// Well-formedness: no more steps handed out than there are.
    pub open spec fn wf(&self) -> bool {
        self@.issued <= self@.steps.len()
    }

    /// A machine that runs the initialization sequence for `options`, with a
    /// hard reset when a reset line is available.
    pub fn new(options: &ModelOptions, hard_reset: bool) -> (m: Initializer)
        ensures
            m.wf(),
            m@ == initial_state(*options, hard_reset),
    {
        Initializer {
            steps: init_steps(options, hard_reset),
            issued: 0,
            aborted: false,
            address_mode: SetAddressMode::from_options(options),
        }
    }

    /// Reports the outcome of the step performed last (`Ok(())` on the first
    /// call) and returns what to do next. A failure is handed back as the
    /// error and ends the sequence.
    pub fn advance<PE>(&mut self, last: Result<(), InitError<PE>>) -> (r: Result<
        InitAction,
        InitError<PE>,
    >)
        requires
            old(self).wf(),
        ensures
            final(self).wf(),
            final(self)@ == next_state(old(self)@, last is Err),
            old(self)@.aborted ==> r == Ok::<InitAction, InitError<PE>>(InitAction::Halted),
            !old(self)@.aborted && last is Err ==> r == Err::<InitAction, InitError<PE>>(
                last->Err_0,
            ),
            !old(self)@.aborted && last is Ok ==> r == Ok::<InitAction, InitError<PE>>(
                action_of(old(self)@),
            ),
    {
        if self.aborted {
            return Ok(InitAction::Halted);
        }
        match last {
            Err(e) => {
                self.aborted = true;
                Err(e)
            },
            Ok(()) => {
                if self.issued < self.steps.len() {
                    let step = self.steps[self.issued];
                    self.issued = self.issued + 1;
                    Ok(InitAction::Perform(step))
                } else {
                    Ok(InitAction::Finished(self.address_mode))
                }
            },
        }
    }
}

} // verus!
