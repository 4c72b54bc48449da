//! The interactive loop's decisions: which engine calls an input event asks
//! for, when the view must be redrawn, and when the session ends.
//!
//! The loop itself (polling input, calling the puzzle engine, sleeping to the
//! next tick and drawing) is run by the caller, which hands each outcome back.
use vstd::prelude::*;

verus! {

/// The fixed period of the loop, in milliseconds: one gravity tick per period.
pub const TICK_PERIOD_MS: u64 = 10;

/// The keys the loop reacts to; every other key is `Other`.
#[derive(Clone, Copy, Debug, PartialEq, Eq, Structural)]
pub enum Key {
    Left,
    Right,
    Up,
    Down,
    A,
    D,
    S,
    W,
    Q,
    Escape,
    Space,
    Other,
}

/// The modifier state of a key press: none, exactly the left shift, or
/// anything else.
#[derive(Clone, Copy, Debug, PartialEq, Eq, Structural)]
pub enum Modifier {
    NoMod,
    LeftShift,
    Other,
}

/// One input event of a poll batch.
#[derive(Clone, Copy, Debug, PartialEq, Eq, Structural)]
pub enum InputEvent {
    Quit,
    KeyDown { key: Key, modifier: Modifier },
    Other,
}

/// What an input event asks of the loop.
#[derive(Clone, Copy, Debug, PartialEq, Eq, Structural)]
pub enum Command {
    Quit,
    SlideLeft,
    SlideRight,
    SoftDrop,
    RotateClockwise,
    RotateAnticlockwise,
    HardDrop,
    Ignore,
}

/// A call into the puzzle engine.
#[derive(Clone, Copy, Debug, PartialEq, Eq, Structural)]
pub enum EngineCall {
    Slide(isize),
    Down,
    RotateClockwise,
    RotateAnticlockwise,
    Drop,
    Merge,
    Random,
}

/// Where the session stands.
#[derive(Clone, Copy, Debug, PartialEq, Eq, Structural)]
pub enum Phase {
    Playing,
    Terminating,
}

/// The command an event asks for; the first matching rule wins.
pub open spec fn command_spec(ev: InputEvent) -> Command {
    match ev {
        InputEvent::Quit => Command::Quit,
        InputEvent::KeyDown { key, modifier } => match key {
            Key::Escape | Key::Q => Command::Quit,
            Key::Left | Key::A => Command::SlideLeft,
            Key::Right | Key::D => Command::SlideRight,
            Key::Down | Key::S => Command::SoftDrop,
            Key::Up | Key::W => match modifier {
                Modifier::LeftShift => Command::RotateClockwise,
                Modifier::NoMod => Command::RotateAnticlockwise,
                Modifier::Other => Command::Ignore,
            },
            Key::Space => Command::HardDrop,
            Key::Other => Command::Ignore,
        },
        InputEvent::Other => Command::Ignore,
    }
}

/// The engine call that starts carrying out a command, if it has one.
pub open spec fn first_call(c: Command) -> Option<EngineCall> {
    match c {
        Command::SlideLeft => Some(EngineCall::Slide(-1isize)),
        Command::SlideRight => Some(EngineCall::Slide(1isize)),
        Command::SoftDrop => Some(EngineCall::Down),
        Command::RotateClockwise => Some(EngineCall::RotateClockwise),
        Command::RotateAnticlockwise => Some(EngineCall::RotateAnticlockwise),
        Command::HardDrop => Some(EngineCall::Drop),
        _ => None,
    }
}

/// Whether a call moves the falling piece, reporting whether it did.
pub open spec fn is_move(call: EngineCall) -> bool {
    match call {
        EngineCall::Slide(_) | EngineCall::Down | EngineCall::RotateClockwise
        | EngineCall::RotateAnticlockwise => true,
        _ => false,
    }
}

/// The command that event `ev` asks for.
pub fn command_for(ev: &InputEvent) -> (c: Command)
    ensures
        c == command_spec(*ev),
{
    match ev {
        InputEvent::Quit => Command::Quit,
        InputEvent::KeyDown { key, modifier } => match key {
            Key::Escape | Key::Q => Command::Quit,
            Key::Left | Key::A => Command::SlideLeft,
            Key::Right | Key::D => Command::SlideRight,
            Key::Down | Key::S => Command::SoftDrop,
            Key::Up | Key::W => match modifier {
                Modifier::LeftShift => Command::RotateClockwise,
                Modifier::NoMod => Command::RotateAnticlockwise,
                Modifier::Other => Command::Ignore,
            },
            Key::Space => Command::HardDrop,
            Key::Other => Command::Ignore,
        },
        InputEvent::Other => Command::Ignore,
    }
}

/// The loop's state: the redraw flag and the session phase.
pub struct Controller {
    dirty: bool,
    phase: Phase,
}

impl Controller {
    /// Whether the view must be redrawn at the next check.
    pub closed spec fn spec_dirty(self) -> bool {
        self.dirty
    }

    /// The session phase.
    pub closed spec fn spec_phase(self) -> Phase {
        self.phase
    }

    /// A controller in the given state.
    pub closed spec fn with(dirty: bool, phase: Phase) -> Controller {
        Controller { dirty, phase }
    }

    /// The state at the start of a session: playing, with a redraw due.
    pub open spec fn initial() -> Controller {
        Controller::with(true, Phase::Playing)
    }

    /// The check at the top of an iteration: redraw when the flag is set,
    /// and clear it.
    pub open spec fn after_top(self) -> (Controller, bool) {
        (Controller::with(false, self.spec_phase()), self.spec_dirty())
    }

    /// The game-over check: a finished game ends the session.
    pub open spec fn after_game_over(self, over: bool) -> Controller {
        if over {
            Controller::with(self.spec_dirty(), Phase::Terminating)
        } else {
            self
        }
    }

    /// An input event: once the session ends nothing more is applied; a quit
    /// ends it; any other command yields its first engine call.
    pub open spec fn after_event(self, ev: InputEvent) -> (Controller, Option<EngineCall>) {
        if self.spec_phase() is Terminating {
            (self, None)
        } else if command_spec(ev) is Quit {
            (Controller::with(self.spec_dirty(), Phase::Terminating), None)
        } else {
            (self, first_call(command_spec(ev)))
        }
    }

    /// The engine's answer to `call`: a move that happened sets the flag; a
    /// soft drop that could not move merges the piece and spawns a new one;
    /// a hard drop always sets the flag, merges and spawns.
    pub open spec fn after_result(self, call: EngineCall, moved: bool) -> (Controller, Seq<EngineCall>) {
        match call {
            EngineCall::Drop => (
                Controller::with(true, self.spec_phase()),
                seq![EngineCall::Merge, EngineCall::Random],
            ),
            EngineCall::Down if !moved => (self, seq![EngineCall::Merge, EngineCall::Random]),
            _ => if is_move(call) && moved {
                (Controller::with(true, self.spec_phase()), Seq::empty())
            } else {
                (self, Seq::empty())
            },
        }
    }

    /// The gravity tick: a tick that moved the piece is redrawn at once,
    /// which clears the flag; one that did not leaves everything as it was.
    pub open spec fn after_tick(self, moved: bool) -> (Controller, bool) {
        if moved {
            (Controller::with(false, self.spec_phase()), true)
        } else {
            (self, false)
        }
    }

    /// Starts a session: playing, with the first frame due.
    pub fn new() -> (r: Controller)
        ensures
            r == Controller::initial(),
    {
        Controller { dirty: true, phase: Phase::Playing }
    }

    /// Whether the view must be redrawn at the next check.
    pub fn is_dirty(&self) -> (r: bool)
        ensures
            r == self.spec_dirty(),
    {
        self.dirty
    }

    /// Whether the session is still being played.
    pub fn is_playing(&self) -> (r: bool)
        ensures
            r == (self.spec_phase() is Playing),
    {
        self.phase == Phase::Playing
    }

    /// The check at the top of an iteration: whether to redraw now.
    pub fn take_redraw(&mut self) -> (r: bool)
        ensures
            (*final(self), r) == old(self).after_top(),
    {
        let r = self.dirty;
        self.dirty = false;
        r
    }

    /// Records whether the engine reports the game over; returns whether the
    /// session has ended.
    pub fn check_game_over(&mut self, over: bool) -> (r: bool)
        ensures
            *final(self) == old(self).after_game_over(over),
            r == (final(self).spec_phase() is Terminating),
    {
        if over {
            self.phase = Phase::Terminating;
        }
        self.phase == Phase::Terminating
    }

    /// Takes one input event; returns the engine call to make for it.
    pub fn on_event(&mut self, ev: &InputEvent) -> (r: Option<EngineCall>)
        ensures
            (*final(self), r) == old(self).after_event(*ev),
    {
        if self.phase == Phase::Terminating {
            return None;
        }
        match command_for(ev) {
            Command::Quit => {
                self.phase = Phase::Terminating;
                None
            },
            Command::SlideLeft => Some(EngineCall::Slide(-1)),
            Command::SlideRight => Some(EngineCall::Slide(1)),
            Command::SoftDrop => Some(EngineCall::Down),
            Command::RotateClockwise => Some(EngineCall::RotateClockwise),
            Command::RotateAnticlockwise => Some(EngineCall::RotateAnticlockwise),
            Command::HardDrop => Some(EngineCall::Drop),
            Command::Ignore => None,
        }
    }

    /// Takes what the engine reported for `call`; returns the calls to make
    /// next, in order.
    pub fn on_result(&mut self, call: EngineCall, moved: bool) -> (r: Vec<EngineCall>)
        ensures
            (*final(self), r@) == old(self).after_result(call, moved),
    {
        let mut next: Vec<EngineCall> = Vec::new();
        match call {
            EngineCall::Drop => {
                self.dirty = true;
                next.push(EngineCall::Merge);
                next.push(EngineCall::Random);
            },
            EngineCall::Down if !moved => {
                next.push(EngineCall::Merge);
                next.push(EngineCall::Random);
            },
            EngineCall::Slide(_) | EngineCall::Down | EngineCall::RotateClockwise
            | EngineCall::RotateAnticlockwise => {
                if moved {
                    self.dirty = true;
                }
            },
            EngineCall::Merge | EngineCall::Random => {},
        }
        proof {
            assert(next@ =~= old(self).after_result(call, moved).1);
        }
        next
    }

    /// Takes the result of the gravity tick; returns whether to redraw now.
    pub fn on_tick(&mut self, moved: bool) -> (r: bool)
        ensures
            (*final(self), r) == old(self).after_tick(moved),
    {
        if moved {
            self.dirty = false;
        }
        moved
    }
}

/// The engine calls made for a batch of input events, in order, together with
/// the state afterwards; `moved[i]` is what the engine reported for the first
/// call of event `i`.
pub open spec fn run_batch(c: Controller, events: Seq<InputEvent>, moved: Seq<bool>) -> (Controller, Seq<EngineCall>)
    decreases events.len(),
{
    if events.len() == 0 {
        (c, Seq::empty())
    } else {
        let (c1, call) = c.after_event(events[0]);
        let (c2, calls) = match call {
            Some(k) => {
                let (c2, follow) = c1.after_result(k, moved[0]);
                (c2, seq![k] + follow)
            },
            None => (c1, Seq::empty()),
        };
        let (c3, rest) = run_batch(c2, events.drop_first(), moved.drop_first());
        (c3, calls + rest)
    }
}

/// Redraws of iterations with no input and no game over: each iteration is
/// the top check, then a gravity tick that reported `ticks[i]`; the last
/// iteration's top check closes the run.
pub open spec fn idle_redraws(c: Controller, ticks: Seq<bool>) -> nat
    decreases ticks.len(),
{
    let (c1, top) = c.after_game_over(false).after_top();
    let top_count: nat = if top { 1 } else { 0 };
    if ticks.len() == 0 {
        top_count
    } else {
        let (c2, tick) = c1.after_tick(ticks[0]);
        let tick_count: nat = if tick { 1 } else { 0 };
        top_count + tick_count + idle_redraws(c2, ticks.drop_first())
    }
}

/// The number of ticks that reported movement.
pub open spec fn moves(ticks: Seq<bool>) -> nat
    decreases ticks.len(),
{
    if ticks.len() == 0 {
        0
    } else {
        (if ticks[0] { 1nat } else { 0nat }) + moves(ticks.drop_first())
    }
}

/// A move that the engine carried out sets the redraw flag, so the next
/// check redraws; one that it refused changes nothing.
pub proof fn lemma_moves_mark_dirty(c: Controller, call: EngineCall, moved: bool)
    requires
        is_move(call),
    ensures
        moved ==> c.after_result(call, moved).0.spec_dirty(),
        moved ==> c.after_result(call, moved).0.after_top().1,
        !moved && call !is Down ==> c.after_result(call, moved) == (c, Seq::<EngineCall>::empty()),
        !moved && call is Down ==> c.after_result(call, moved).0 == c,
{
}

/// A tick without movement neither redraws nor changes the state; a tick with
/// movement redraws at once.
pub proof fn lemma_tick_redraws_on_move(c: Controller, moved: bool)
    ensures
        c.after_tick(moved).1 == moved,
        !moved ==> c.after_tick(moved).0 == c,
        moved ==> !c.after_tick(moved).0.spec_dirty(),
{
}

/// While playing, space asks for a hard drop, whose answer, whatever it is,
/// sets the redraw flag and is followed by exactly one merge and one spawn.
pub proof fn lemma_hard_drop(c: Controller, modifier: Modifier, moved: bool)
    requires
        c.spec_phase() is Playing,
    ensures
        c.after_event(InputEvent::KeyDown { key: Key::Space, modifier }) == (c, Some(EngineCall::Drop)),
        c.after_result(EngineCall::Drop, moved).0.spec_dirty(),
        c.after_result(EngineCall::Drop, moved).0.spec_phase() == c.spec_phase(),
        c.after_result(EngineCall::Drop, moved).1 == seq![EngineCall::Merge, EngineCall::Random],
{
}

/// Once the session ends, a batch changes nothing and makes no call.
pub proof fn lemma_terminated_batch(c: Controller, events: Seq<InputEvent>, moved: Seq<bool>)
    requires
        c.spec_phase() is Terminating,
    ensures
        run_batch(c, events, moved) == (c, Seq::<EngineCall>::empty()),
    decreases events.len(),
{
    if events.len() > 0 {
        lemma_terminated_batch(c, events.drop_first(), moved.drop_first());
        assert(Seq::<EngineCall>::empty() + Seq::<EngineCall>::empty() =~= Seq::<EngineCall>::empty());
    }
}

/// A quit event ends the session within its batch: the batch makes exactly
/// the calls of the events before it, and none of those after it.
pub proof fn lemma_quit_ends_batch(c: Controller, events: Seq<InputEvent>, moved: Seq<bool>, i: int)
    requires
        0 <= i < events.len(),
        command_spec(events[i]) is Quit,
    ensures
        run_batch(c, events, moved).1 == run_batch(c, events.subrange(0, i), moved).1,
        run_batch(c, events, moved).0.spec_phase() is Terminating,
    decreases i,
{
    let head = events.subrange(0, i);
    if c.spec_phase() is Terminating {
        lemma_terminated_batch(c, events, moved);
        lemma_terminated_batch(c, head, moved);
    } else if i == 0 {
        let c1 = c.after_event(events[0]).0;
        lemma_terminated_batch(c1, events.drop_first(), moved.drop_first());
        assert(Seq::<EngineCall>::empty() + Seq::<EngineCall>::empty() =~= Seq::<EngineCall>::empty());
    } else {
        let (c1, call) = c.after_event(events[0]);
        let c2 = match call {
            Some(k) => c1.after_result(k, moved[0]).0,
            None => c1,
        };
        assert(head[0] == events[0]);
        assert(head.drop_first() =~= events.drop_first().subrange(0, i - 1));
        lemma_quit_ends_batch(c2, events.drop_first(), moved.drop_first(), i - 1);
    }
}

/// With no input and no game over, a session redraws once for the frame due
/// at its start and once for each tick that reported movement.
pub proof fn lemma_idle_redraws(ticks: Seq<bool>)
    ensures
        idle_redraws(Controller::initial(), ticks) == 1 + moves(ticks),
{
    lemma_idle_redraws_from(Controller::initial(), ticks);
}

/// From any state, an idle run redraws once if a redraw is due, then once
/// for each tick that reported movement.
pub proof fn lemma_idle_redraws_from(c: Controller, ticks: Seq<bool>)
    ensures
        idle_redraws(c, ticks) == (if c.spec_dirty() { 1nat } else { 0nat }) + moves(ticks),
    decreases ticks.len(),
{
    if ticks.len() > 0 {
        let c1 = c.after_game_over(false).after_top().0;
        let c2 = c1.after_tick(ticks[0]).0;
        lemma_idle_redraws_from(c2, ticks.drop_first());
    }
}

} // verus!
