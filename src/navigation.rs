//! The navigation decision machine: manual dispatch of operator commands, and
//! the automatic three-position scan that steers around obstacles.
use vstd::prelude::*;
use crate::command::Command;
use crate::operator::{Operator, OperatingMode};

verus! {

/// Where the ultrasonic sensor is aimed.
#[derive(Debug, Clone, Copy, PartialEq, Eq, Structural)]
pub enum UltrasonicPosition {
    Right,
    Left,
    Middle,
}

/// A side the scanning servo can turn to.
#[derive(Debug, Clone, Copy, PartialEq, Eq, Structural)]
pub enum ServoDirection {
    Right,
    Left,
}

/// Distance at or below which the rover stops and looks around, in cm.
pub const D_STOP: u64 = 20;

/// Settle time after moving the scanner, in milliseconds.
pub const SCAN_SETTLE_MS: u16 = 1000;

/// Pause after a steering decision, in milliseconds.
pub const DECISION_PAUSE_MS: u16 = 500;

/// The servo duty cycle, in percent, that aims the scanner at a position.
pub open spec fn duty_of(p: UltrasonicPosition) -> u8 {
    match p {
        UltrasonicPosition::Right => 5,
        UltrasonicPosition::Middle => 15,
        UltrasonicPosition::Left => 25,
    }
}

impl UltrasonicPosition {
    /// The servo duty cycle that aims the scanner here.
    pub fn servo_duty(&self) -> (r: u8)
        ensures
            r == duty_of(*self),
    {
        match self {
            UltrasonicPosition::Right => 5,
            UltrasonicPosition::Middle => 15,
            UltrasonicPosition::Left => 25,
        }
    }
}

impl ServoDirection {
    /// The scanner position on this side.
    pub fn position(&self) -> (r: UltrasonicPosition)
        ensures
            *self == ServoDirection::Right ==> r == UltrasonicPosition::Right,
            *self == ServoDirection::Left ==> r == UltrasonicPosition::Left,
    {
        match self {
            ServoDirection::Right => UltrasonicPosition::Right,
            ServoDirection::Left => UltrasonicPosition::Left,
        }
    }
}

/// Something the control loop does on the navigator's behalf.
#[derive(Debug, Clone, Copy, PartialEq, Eq, Structural)]
pub enum Action {
    /// Drive the motors with a command.
    Drive(Command),
    /// Aim the scanner with a servo duty cycle, in percent.
    Servo(u8),
    /// Busy-wait, in milliseconds.
    DelayMs(u16),
}

/// The commands that follow a completed scan: turn toward the clearer side
/// when either side is beyond the stop distance, else back up and turn right.
pub open spec fn decision_of(dr: u64, dl: u64) -> Seq<Command> {
    if dr > D_STOP || dl > D_STOP {
        if dr > dl {
            seq![Command::RightTurn]
        } else {
            seq![Command::LeftTurn]
        }
    } else {
        seq![Command::Reverse, Command::RightTurn]
    }
}

/// Decides how to steer from the right and left distances of a scan.
pub fn decide(dr: u64, dl: u64) -> (r: Vec<Command>)
    ensures
        r@ == decision_of(dr, dl),
{
    let r = if dr > D_STOP || dl > D_STOP {
        if dr > dl {
            vec![Command::RightTurn]
        } else {
            vec![Command::LeftTurn]
        }
    } else {
        vec![Command::Reverse, Command::RightTurn]
    };
    assert(r@ =~= decision_of(dr, dl));
    r
}

/// The navigator's own state: the scanner's aim, the last side distances
/// and whether the rover was last sent forward (so forward is not resent on
/// every reading).
#[derive(Debug, Clone, Copy, PartialEq, Eq, Structural)]
pub struct Navigator {
    pub position: UltrasonicPosition,
    pub dr: u64,
    pub dl: u64,
    pub moving_forward: bool,
}

/// The flag after driving with a command: any command but forward clears it;
/// forward leaves it as it was.
pub open spec fn flag_after(flag: bool, c: Command) -> bool {
    if c == Command::Forward {
        flag
    } else {
        false
    }
}

/// The flag after a sequence of commands.
pub open spec fn flag_after_all(flag: bool, cs: Seq<Command>) -> bool
    decreases cs.len(),
{
    if cs.len() == 0 {
        flag
    } else {
        flag_after_all(flag_after(flag, cs[0]), cs.drop_first())
    }
}

/// The actions that drive the motors with each command in turn.
pub open spec fn drives(cs: Seq<Command>) -> Seq<Action> {
    cs.map_values(|c: Command| Action::Drive(c))
}

/// The navigator after one distance reading in automatic mode.
pub open spec fn auto_next(n: Navigator, d: u64) -> Navigator {
    match n.position {
        UltrasonicPosition::Right => Navigator { position: UltrasonicPosition::Left, dr: d, ..n },
        UltrasonicPosition::Left => Navigator {
            position: UltrasonicPosition::Middle,
            dl: d,
            moving_forward: flag_after_all(n.moving_forward, decision_of(n.dr, d)),
            ..n
        },
        UltrasonicPosition::Middle => if d <= D_STOP {
            Navigator { position: UltrasonicPosition::Right, moving_forward: false, ..n }
        } else {
            Navigator { moving_forward: true, ..n }
        },
    }
}

/// What the navigator does with one distance reading in automatic mode.
/// Aimed right it records the right distance and turns the scanner left;
/// aimed left it records the left distance, recentres and steers; aimed ahead
/// it stops and looks right when blocked, else goes forward unless already
/// going forward.
pub open spec fn auto_actions(n: Navigator, d: u64) -> Seq<Action> {
    match n.position {
        UltrasonicPosition::Right => seq![
            Action::Servo(duty_of(UltrasonicPosition::Left)),
            Action::DelayMs(SCAN_SETTLE_MS),
        ],
        UltrasonicPosition::Left => seq![
            Action::Servo(duty_of(UltrasonicPosition::Middle)),
            Action::DelayMs(SCAN_SETTLE_MS),
        ] + drives(decision_of(n.dr, d)) + seq![Action::DelayMs(DECISION_PAUSE_MS)],
        UltrasonicPosition::Middle => if d <= D_STOP {
            seq![
                Action::Drive(Command::Brake),
                Action::Servo(duty_of(UltrasonicPosition::Right)),
                Action::DelayMs(SCAN_SETTLE_MS),
            ]
        } else if n.moving_forward {
            Seq::empty()
        } else {
            seq![Action::Drive(Command::Forward)]
        },
    }
}

impl Navigator {
    /// The start-up state: scanner ahead, no distances, not moving.
    pub fn new() -> (r: Navigator)
        ensures
            r.position == UltrasonicPosition::Middle,
            r.dr == 0,
            r.dl == 0,
            !r.moving_forward,
    {
        Navigator { position: UltrasonicPosition::Middle, dr: 0, dl: 0, moving_forward: false }
    }

    /// Drives with one command and keeps the forward flag in step with it.
    fn drive(&mut self, c: Command, actions: &mut Vec<Action>)
        ensures
            final(self).moving_forward == flag_after(old(self).moving_forward, c),
            final(self).position == old(self).position,
            final(self).dr == old(self).dr,
            final(self).dl == old(self).dl,
            final(actions)@ == old(actions)@.push(Action::Drive(c)),
    {
        if c != Command::Forward {
            self.moving_forward = false;
        }
        actions.push(Action::Drive(c));
    }

    /// Dispatches an operator command taken from the mailbox in manual mode.
    pub fn manual_step(&mut self, c: Command) -> (r: Vec<Action>)
        ensures
            r@ == seq![Action::Drive(c)],
            *final(self) == (Navigator {
                moving_forward: flag_after(old(self).moving_forward, c),
                ..*old(self)
            }),
    {
        let mut r: Vec<Action> = Vec::new();
        self.drive(c, &mut r);
        assert(r@ =~= seq![Action::Drive(c)]);
        r
    }

    /// Handles one distance reading in automatic mode.
    pub fn auto_step(&mut self, d: u64) -> (r: Vec<Action>)
        ensures
            r@ == auto_actions(*old(self), d),
            *final(self) == auto_next(*old(self), d),
    {
        let ghost n = *self;
        let mut r: Vec<Action> = Vec::new();
        match self.position {
            UltrasonicPosition::Right => {
                self.dr = d;
                r.push(Action::Servo(UltrasonicPosition::Left.servo_duty()));
                r.push(Action::DelayMs(SCAN_SETTLE_MS));
                self.position = UltrasonicPosition::Left;
                assert(r@ =~= auto_actions(n, d));
            },
            UltrasonicPosition::Left => {
                self.dl = d;
                r.push(Action::Servo(UltrasonicPosition::Middle.servo_duty()));
                r.push(Action::DelayMs(SCAN_SETTLE_MS));
                self.position = UltrasonicPosition::Middle;
                let cs = decide(self.dr, self.dl);
                let ghost head = r@;
                assert(cs@.subrange(0, cs@.len() as int) =~= cs@);
                let mut i: usize = 0;
                while i < cs.len()
                    invariant
                        i <= cs@.len(),
                        cs@ == decision_of(n.dr, d),
                        r@ == head + drives(cs@.subrange(0, i as int)),
                        self.position == UltrasonicPosition::Middle,
                        self.dr == n.dr,
                        self.dl == d,
                        flag_after_all(n.moving_forward, cs@) == flag_after_all(
                            self.moving_forward,
                            cs@.subrange(i as int, cs@.len() as int),
                        ),
                    decreases cs@.len() - i,
                {
                    let ghost rest = cs@.subrange(i as int, cs@.len() as int);
                    assert(rest.drop_first() =~= cs@.subrange(i + 1, cs@.len() as int));
                    self.drive(cs[i], &mut r);
                    i = i + 1;
                    assert(drives(cs@.subrange(0, i as int)) =~= drives(
                        cs@.subrange(0, i - 1),
                    ).push(Action::Drive(cs@[i - 1])));
                }
                assert(cs@.subrange(0, cs@.len() as int) =~= cs@);
                assert(cs@.subrange(cs@.len() as int, cs@.len() as int) =~= Seq::<Command>::empty());
                r.push(Action::DelayMs(DECISION_PAUSE_MS));
                assert(r@ =~= auto_actions(n, d));
            },
            UltrasonicPosition::Middle => {
                if d <= D_STOP {
                    self.drive(Command::Brake, &mut r);
                    r.push(Action::Servo(UltrasonicPosition::Right.servo_duty()));
                    r.push(Action::DelayMs(SCAN_SETTLE_MS));
                    self.position = UltrasonicPosition::Right;
                } else if !self.moving_forward {
                    self.drive(Command::Forward, &mut r);
                    self.moving_forward = true;
                }
                assert(r@ =~= auto_actions(n, d));
            },
        }
        r
    }
}

/// The actions of a run of automatic steps over successive readings.
pub open spec fn auto_run(n: Navigator, ds: Seq<u64>) -> Seq<Action>
    decreases ds.len(),
{
    if ds.len() == 0 {
        Seq::empty()
    } else {
        auto_actions(n, ds[0]) + auto_run(auto_next(n, ds[0]), ds.drop_first())
    }
}

/// Aimed ahead with a clear path, any run of readings beyond the stop
/// distance sends forward once at most: once if the rover was not already
/// going forward, and never again while the readings stay clear.
pub proof fn lemma_forward_debounced(n: Navigator, ds: Seq<u64>)
    requires
        n.position == UltrasonicPosition::Middle,
        ds.len() > 0,
        forall|i: int| 0 <= i < ds.len() ==> ds[i] > D_STOP,
    ensures
        auto_run(n, ds) == (if n.moving_forward {
            Seq::<Action>::empty()
        } else {
            seq![Action::Drive(Command::Forward)]
        }),
    decreases ds.len(),
{
    let next = auto_next(n, ds[0]);
    assert(next.position == UltrasonicPosition::Middle && next.moving_forward);
    assert(auto_run(n, ds) == auto_actions(n, ds[0]) + auto_run(next, ds.drop_first()));
    if ds.len() > 1 {
        let rest = ds.drop_first();
        assert(forall|i: int| 0 <= i < rest.len() ==> rest[i] == ds[i + 1]);
        lemma_forward_debounced(next, rest);
    } else {
        assert(ds.drop_first().len() == 0);
    }
    assert(auto_run(next, ds.drop_first()) =~= Seq::<Action>::empty());
    assert(auto_run(n, ds) =~= (if n.moving_forward {
        Seq::<Action>::empty()
    } else {
        seq![Action::Drive(Command::Forward)]
    }));
}

/// Any command but forward clears the flag, so the next clear reading ahead
/// sends forward again.
pub proof fn lemma_forward_resent_after_other(n: Navigator, c: Command, d: u64)
    requires
        n.position == UltrasonicPosition::Middle,
        c != Command::Forward,
        d > D_STOP,
    ensures
        auto_actions((Navigator { moving_forward: flag_after(n.moving_forward, c), ..n }), d)
            == seq![Action::Drive(Command::Forward)],
{
}

/// Scan outcome when either side is clear: turn toward the greater distance.
pub proof fn lemma_turn_toward_clearance(dr: u64, dl: u64)
    requires
        dr > D_STOP || dl > D_STOP,
    ensures
        dr > dl ==> decision_of(dr, dl) == seq![Command::RightTurn],
        dr <= dl ==> decision_of(dr, dl) == seq![Command::LeftTurn],
{
}

/// What one pass of the control loop asks of the hardware: whether to
/// request a trigger pulse, and the actions to carry out in order.
pub struct ControlStep {
    pub trigger: bool,
    pub actions: Vec<Action>,
}

/// One pass of the control loop over the shared state, under its locks. In
/// manual mode it drains the command mailbox; in automatic mode it requests a
/// trigger pulse and consumes the distance reading, if one has arrived.
pub fn control(nav: &mut Navigator, operator: &mut Operator, distance: &mut Option<u64>) -> (r:
    ControlStep)
    ensures
        final(operator).mode == old(operator).mode,
        final(operator).indicator == old(operator).indicator,
        old(operator).mode == OperatingMode::Manual ==> {
            &&& !r.trigger
            &&& *final(distance) == *old(distance)
            &&& final(operator).command.is_none()
            &&& match old(operator).command {
                Some(c) => {
                    &&& r.actions@ == seq![Action::Drive(c)]
                    &&& *final(nav) == (Navigator {
                        moving_forward: flag_after(old(nav).moving_forward, c),
                        ..*old(nav)
                    })
                },
                None => r.actions@.len() == 0 && *final(nav) == *old(nav),
            }
        },
        old(operator).mode == OperatingMode::Auto ==> {
            &&& r.trigger
            &&& final(operator).command == old(operator).command
            &&& final(distance).is_none()
            &&& match *old(distance) {
                Some(d) => r.actions@ == auto_actions(*old(nav), d) && *final(nav) == auto_next(
                    *old(nav),
                    d,
                ),
                None => r.actions@.len() == 0 && *final(nav) == *old(nav),
            }
        },
{
    match operator.mode {
        OperatingMode::Manual => {
            match operator.take_command() {
                Some(c) => ControlStep { trigger: false, actions: nav.manual_step(c) },
                None => ControlStep { trigger: false, actions: Vec::new() },
            }
        },
        OperatingMode::Auto => {
            match distance.take() {
                Some(d) => ControlStep { trigger: true, actions: nav.auto_step(d) },
                None => ControlStep { trigger: true, actions: Vec::new() },
            }
        },
    }
}

} // verus!
