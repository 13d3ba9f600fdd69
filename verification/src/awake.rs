//! The lifecycle of the sleep-preventing power assertions.
//!
//! The controller never talks to the platform itself. Each request (`start`,
//! `stop`, `set_keep_display_awake`) and each reply of the platform
//! (`on_reply`) moves it to its next state and tells the caller what to do
//! next: which assertions to release, and whether to create an assertion,
//! release one and report the code, or finish the request with a result.
//! The caller performs those platform calls and hands the replies back.
//!
//! What the controller guarantees: `start` first hands back every assertion
//! it held, so a second `start` never leaves two live assertions; `stop` can
//! be called any number of times; a display assertion is only ever held
//! together with a system assertion; and no assertion id is ever lost, it is
//! either held or handed back for release.

use vstd::prelude::*;

use crate::text::{push_signed_decimal, signed_decimal};

verus! {

/// A failed platform call, with the raw return code it gave, or a reply of
/// the platform that did not answer what the controller waited for.
#[derive(Debug, Clone, Copy, PartialEq, Eq, Structural)]
pub enum AwakeError {
    CreateSystem(i32),
    CreateDisplay(i32),
    ReleaseSystem(i32),
    ReleaseDisplay(i32),
    UnexpectedReply,
}

impl AwakeError {
    /// The raw return code that the failed call gave.
    pub open spec fn code(self) -> i32 {
        match self {
            AwakeError::CreateSystem(c) => c,
            AwakeError::CreateDisplay(c) => c,
            AwakeError::ReleaseSystem(c) => c,
            AwakeError::ReleaseDisplay(c) => c,
            AwakeError::UnexpectedReply => 0,
        }
    }

    /// The text of the message up to the code.
    pub open spec fn message_head(self) -> Seq<char> {
        match self {
            AwakeError::CreateSystem(_) => "IOKit rendszer-sleep assertion létrehozása sikertelen (IOReturn="@,
            AwakeError::CreateDisplay(_) => "IOKit kijelző-sleep assertion létrehozása sikertelen (IOReturn="@,
            AwakeError::ReleaseSystem(_) => "IOKit rendszer-sleep assertion release hiba (IOReturn="@,
            AwakeError::ReleaseDisplay(_) => "IOKit kijelző-sleep assertion release hiba (IOReturn="@,
            AwakeError::UnexpectedReply => ""@,
        }
    }

    /// The message: which call failed, then the code in decimal; for a
    /// reply that nothing waited for, a fixed text.
    pub open spec fn message_text(self) -> Seq<char> {
        match self {
            AwakeError::UnexpectedReply => "IOKit váratlan válasz"@,
            _ => self.message_head() + signed_decimal(self.code() as int) + ")"@,
        }
    }

    /// The human-readable message of the failure.
    pub fn message(&self) -> (s: String)
        ensures
            s@ == self.message_text(),
    {
        if let AwakeError::UnexpectedReply = self {
            return String::from_str("IOKit váratlan válasz");
        }
        let (head, code) = match self {
            AwakeError::CreateSystem(c) => ("IOKit rendszer-sleep assertion létrehozása sikertelen (IOReturn=", *c),
            AwakeError::CreateDisplay(c) => ("IOKit kijelző-sleep assertion létrehozása sikertelen (IOReturn=", *c),
            AwakeError::ReleaseSystem(c) => ("IOKit rendszer-sleep assertion release hiba (IOReturn=", *c),
            AwakeError::ReleaseDisplay(c) => ("IOKit kijelző-sleep assertion release hiba (IOReturn=", *c),
            AwakeError::UnexpectedReply => ("", 0),
        };
        let mut s = String::from_str(head);
        push_signed_decimal(&mut s, code);
        s.append(")");
        s
    }
}

/// The two kinds of assertion: the one that keeps the system from idle
/// sleep, and the one that keeps the display from idle sleep.
#[derive(Debug, Clone, Copy, PartialEq, Eq, Structural)]
pub enum AssertionKind {
    System,
    Display,
}

/// The return code of a successful platform call.
pub const SUCCESS: i32 = 0;

/// What the platform answered to the last `PowerAction`.
#[derive(Debug, Clone, Copy)]
pub enum PowerReply {
    /// The answer to `Create(kind)`: the new assertion id, or the error code.
    Created(AssertionKind, Result<u32, i32>),
    /// The answer to `Release(..)`: the return code of the release.
    Released(i32),
}

/// What the caller has to do next.
#[derive(Debug, Clone, Copy)]
pub enum PowerAction {
    /// Create an assertion of this kind and hand back `PowerReply::Created`.
    Create(AssertionKind),
    /// Release this assertion and hand back `PowerReply::Released`.
    Release(AssertionKind, u32),
    /// The request is finished, with this result.
    Done(Result<(), AwakeError>),
}

/// The answer of the controller to a request or a reply: the assertions to
/// release first (a failed release there is only worth a log line), then the
/// next action.
pub struct PowerStep {
    pub release: Vec<(AssertionKind, u32)>,
    pub next: PowerAction,
}

/// The model of a `PowerStep`.
pub struct StepModel {
    pub release: Seq<(AssertionKind, u32)>,
    pub next: PowerAction,
}

impl View for PowerStep {
    type V = StepModel;

    open spec fn view(&self) -> StepModel {
        StepModel { release: self.release@, next: self.next }
    }
}

impl StepModel {
    /// Every assertion this step gives up: those to release first, then the
    /// one that the next action releases.
    pub open spec fn handed_back(self) -> Seq<(AssertionKind, u32)> {
        match self.next {
            PowerAction::Release(kind, id) => self.release.push((kind, id)),
            _ => self.release,
        }
    }
}

/// Which reply the controller is waiting for.
#[derive(Debug, Clone, Copy, PartialEq, Eq, Structural)]
pub enum Phase {
    /// No request is under way.
    Idle,
    /// A start asked for the system assertion; `keep_display` says whether
    /// the display assertion follows.
    AwaitSystem { keep_display: bool },
    /// A start asked for the display assertion.
    AwaitStartDisplay,
    /// Turning on the display option during a session asked for the display
    /// assertion.
    AwaitAddDisplay,
    /// Turning off the display option asked to release the display assertion.
    AwaitRemoveDisplay,
}

/// The model of the controller: the live assertion ids and the phase.
pub struct AwakeModel {
    pub system: Option<u32>,
    pub display: Option<u32>,
    pub phase: Phase,
}

/// The one-element sequence of a held id, or the empty sequence.
pub open spec fn held_as_seq(kind: AssertionKind, id: Option<u32>) -> Seq<(AssertionKind, u32)> {
    match id {
        Some(i) => seq![(kind, i)],
        None => seq![],
    }
}

/// The id that a reply brings, as a sequence of at most one element.
pub open spec fn created_by(reply: PowerReply) -> Seq<(AssertionKind, u32)> {
    match reply {
        PowerReply::Created(kind, Ok(id)) => seq![(kind, id)],
        _ => seq![],
    }
}

/// The replies that each phase waits for.
pub open spec fn expected_reply(phase: Phase, reply: PowerReply) -> bool {
    match (phase, reply) {
        (Phase::AwaitSystem { .. }, PowerReply::Created(AssertionKind::System, _)) => true,
        (Phase::AwaitStartDisplay, PowerReply::Created(AssertionKind::Display, _)) => true,
        (Phase::AwaitAddDisplay, PowerReply::Created(AssertionKind::Display, _)) => true,
        (Phase::AwaitRemoveDisplay, PowerReply::Released(_)) => true,
        _ => false,
    }
}

/// The result of a reply that the phase does not wait for: a failure where
/// a request was under way, a success where none was.
pub open spec fn stray_reply_result(phase: Phase) -> Result<(), AwakeError> {
    if phase == Phase::Idle {
        Ok(())
    } else {
        Err(AwakeError::UnexpectedReply)
    }
}

/// The action that finishes a request.
pub open spec fn done(result: Result<(), AwakeError>) -> PowerAction {
    PowerAction::Done(result)
}

/// A step with these releases and this next action.
pub open spec fn step(release: Seq<(AssertionKind, u32)>, next: PowerAction) -> StepModel {
    StepModel { release, next }
}

impl AwakeModel {
    /// The controller with nothing held and no request under way.
    pub open spec fn idle() -> AwakeModel {
        AwakeModel { system: None, display: None, phase: Phase::Idle }
    }

    /// The live assertions, the system one first.
    pub open spec fn held(self) -> Seq<(AssertionKind, u32)> {
        held_as_seq(AssertionKind::System, self.system) + held_as_seq(AssertionKind::Display, self.display)
    }

    /// The same ids in another phase.
    pub open spec fn in_phase(self, phase: Phase) -> AwakeModel {
        AwakeModel { system: self.system, display: self.display, phase }
    }

    /// A display assertion is held only together with a system assertion,
    /// and each phase holds what the request that set it left behind.
    pub open spec fn wf(self) -> bool {
        &&& self.display is Some ==> self.system is Some
        &&& match self.phase {
            Phase::Idle => true,
            Phase::AwaitSystem { .. } => self.system is None && self.display is None,
            Phase::AwaitStartDisplay => self.system is Some && self.display is None,
            Phase::AwaitAddDisplay => self.system is Some && self.display is None,
            Phase::AwaitRemoveDisplay => self.display is None,
        }
    }

    /// `stop`: everything held is handed back, and nothing is under way.
    pub open spec fn after_stop(self) -> (AwakeModel, Seq<(AssertionKind, u32)>) {
        (AwakeModel::idle(), self.held())
    }

    /// `start`: everything held is handed back first, then the system
    /// assertion is asked for.
    pub open spec fn after_start(self, keep_display_awake: bool) -> (AwakeModel, StepModel) {
        (
            AwakeModel {
                system: None,
                display: None,
                phase: Phase::AwaitSystem { keep_display: keep_display_awake },
            },
            step(self.held(), PowerAction::Create(AssertionKind::System)),
        )
    }

    /// `set_keep_display_awake`: during a session without a display
    /// assertion, turning the option on asks for one; turning it off while
    /// one is held releases it; anything else changes nothing and succeeds.
    pub open spec fn after_set_keep_display(self, keep: bool) -> (AwakeModel, StepModel) {
        if self.display is None && keep && self.system is Some {
            (
                self.in_phase(Phase::AwaitAddDisplay),
                step(seq![], PowerAction::Create(AssertionKind::Display)),
            )
        } else if self.display is Some && !keep {
            (
                AwakeModel { system: self.system, display: None, phase: Phase::AwaitRemoveDisplay },
                step(seq![], PowerAction::Release(AssertionKind::Display, self.display->0)),
            )
        } else {
            (self.in_phase(Phase::Idle), step(seq![], done(Ok(()))))
        }
    }

    /// A reply of the platform. A reply that the phase does not wait for
    /// ends whatever request was under way: the held assertions stay, an
    /// assertion the reply brings is handed back at once, and the request
    /// fails with `UnexpectedReply` (nothing fails where none was under way).
    pub open spec fn after_reply(self, reply: PowerReply) -> (AwakeModel, StepModel) {
        match (self.phase, reply) {
            (Phase::AwaitSystem { keep_display }, PowerReply::Created(AssertionKind::System, Ok(id))) => {
                if keep_display {
                    (
                        AwakeModel { system: Some(id), display: None, phase: Phase::AwaitStartDisplay },
                        step(seq![], PowerAction::Create(AssertionKind::Display)),
                    )
                } else {
                    (
                        AwakeModel { system: Some(id), display: None, phase: Phase::Idle },
                        step(seq![], done(Ok(()))),
                    )
                }
            },
            (Phase::AwaitSystem { .. }, PowerReply::Created(AssertionKind::System, Err(code))) => {
                (self.in_phase(Phase::Idle), step(seq![], done(Err(AwakeError::CreateSystem(code)))))
            },
            (Phase::AwaitStartDisplay, PowerReply::Created(AssertionKind::Display, Ok(id))) => {
                (
                    AwakeModel { system: self.system, display: Some(id), phase: Phase::Idle },
                    step(seq![], done(Ok(()))),
                )
            },
            (Phase::AwaitStartDisplay, PowerReply::Created(AssertionKind::Display, Err(code))) => {
                (AwakeModel::idle(), step(self.held(), done(Err(AwakeError::CreateDisplay(code)))))
            },
            (Phase::AwaitAddDisplay, PowerReply::Created(AssertionKind::Display, Ok(id))) => {
                (
                    AwakeModel { system: self.system, display: Some(id), phase: Phase::Idle },
                    step(seq![], done(Ok(()))),
                )
            },
            (Phase::AwaitAddDisplay, PowerReply::Created(AssertionKind::Display, Err(code))) => {
                (self.in_phase(Phase::Idle), step(seq![], done(Err(AwakeError::CreateDisplay(code)))))
            },
            (Phase::AwaitRemoveDisplay, PowerReply::Released(code)) => {
                (
                    self.in_phase(Phase::Idle),
                    step(
                        seq![],
                        done(
                            if code == SUCCESS {
                                Ok(())
                            } else {
                                Err(AwakeError::ReleaseDisplay(code))
                            },
                        ),
                    ),
                )
            },
            _ => (self.in_phase(Phase::Idle), step(created_by(reply), done(stray_reply_result(self.phase)))),
        }
    }
}

/// Holds the ids of the live assertions and the reply it waits for.
pub struct AwakeController {
    system_assertion_id: Option<u32>,
    display_assertion_id: Option<u32>,
    phase: Phase,
}

impl View for AwakeController {
    type V = AwakeModel;

    closed spec fn view(&self) -> AwakeModel {
        AwakeModel {
            system: self.system_assertion_id,
            display: self.display_assertion_id,
            phase: self.phase,
        }
    }
}

fn held_vec(system: Option<u32>, display: Option<u32>) -> (v: Vec<(AssertionKind, u32)>)
    ensures
        v@ == held_as_seq(AssertionKind::System, system) + held_as_seq(AssertionKind::Display, display),
{
    let mut v: Vec<(AssertionKind, u32)> = Vec::new();
    if let Some(id) = system {
        v.push((AssertionKind::System, id));
    }
    if let Some(id) = display {
        v.push((AssertionKind::Display, id));
    }
    proof {
        assert(v@ =~= held_as_seq(AssertionKind::System, system) + held_as_seq(
            AssertionKind::Display,
            display,
        ));
    }
    v
}

impl AwakeController {
    #[verifier::type_invariant]
    spec fn well_formed(self) -> bool {
        self@.wf()
    }

    /// A controller that holds nothing.
    pub fn new() -> (c: Self)
        ensures
            c@ == AwakeModel::idle(),
            c@.wf(),
    {
        AwakeController { system_assertion_id: None, display_assertion_id: None, phase: Phase::Idle }
    }

    /// Gives up every live assertion: they are returned, the system one
    /// first, for the caller to release. Calling it again returns nothing.
    pub fn stop(&mut self) -> (released: Vec<(AssertionKind, u32)>)
        ensures
            final(self)@ == old(self)@.after_stop().0,
            final(self)@.wf(),
            released@ == old(self)@.after_stop().1,
    {
        let released = held_vec(self.system_assertion_id, self.display_assertion_id);
        *self = AwakeController { system_assertion_id: None, display_assertion_id: None, phase: Phase::Idle };
        released
    }

    /// Starts keeping the machine awake: hands back whatever was held, then
    /// asks for the system assertion, and afterwards for the display one
    /// where `keep_display_awake` is set.
    pub fn start(&mut self, keep_display_awake: bool) -> (s: PowerStep)
        ensures
            final(self)@ == old(self)@.after_start(keep_display_awake).0,
            final(self)@.wf(),
            s@ == old(self)@.after_start(keep_display_awake).1,
    {
        let release = held_vec(self.system_assertion_id, self.display_assertion_id);
        *self = AwakeController {
            system_assertion_id: None,
            display_assertion_id: None,
            phase: Phase::AwaitSystem { keep_display: keep_display_awake },
        };
        PowerStep { release, next: PowerAction::Create(AssertionKind::System) }
    }

    /// Turns the display assertion on or off during a session; outside a
    /// session the option only takes effect at the next `start`.
    pub fn set_keep_display_awake(&mut self, keep: bool) -> (s: PowerStep)
        ensures
            final(self)@ == old(self)@.after_set_keep_display(keep).0,
            final(self)@.wf(),
            s@ == old(self)@.after_set_keep_display(keep).1,
    {
        proof {
            use_type_invariant(&*self);
        }
        let system = self.system_assertion_id;
        match self.display_assertion_id {
            None => {
                if keep && system.is_some() {
                    *self = AwakeController {
                        system_assertion_id: system,
                        display_assertion_id: None,
                        phase: Phase::AwaitAddDisplay,
                    };
                    return PowerStep {
                        release: Vec::new(),
                        next: PowerAction::Create(AssertionKind::Display),
                    };
                }
            },
            Some(id) => {
                if !keep {
                    *self = AwakeController {
                        system_assertion_id: system,
                        display_assertion_id: None,
                        phase: Phase::AwaitRemoveDisplay,
                    };
                    return PowerStep {
                        release: Vec::new(),
                        next: PowerAction::Release(AssertionKind::Display, id),
                    };
                }
            },
        }
        let display = self.display_assertion_id;
        *self = AwakeController {
            system_assertion_id: system,
            display_assertion_id: display,
            phase: Phase::Idle,
        };
        PowerStep { release: Vec::new(), next: PowerAction::Done(Ok(())) }
    }

    /// Takes the platform's reply to the last action.
    pub fn on_reply(&mut self, reply: PowerReply) -> (s: PowerStep)
        ensures
            final(self)@ == old(self)@.after_reply(reply).0,
            final(self)@.wf(),
            s@ == old(self)@.after_reply(reply).1,
    {
        proof {
            use_type_invariant(&*self);
        }
        let system = self.system_assertion_id;
        let display = self.display_assertion_id;
        match (self.phase, reply) {
            (Phase::AwaitSystem { keep_display }, PowerReply::Created(AssertionKind::System, Ok(id))) => {
                if keep_display {
                    *self = AwakeController {
                        system_assertion_id: Some(id),
                        display_assertion_id: None,
                        phase: Phase::AwaitStartDisplay,
                    };
                    PowerStep { release: Vec::new(), next: PowerAction::Create(AssertionKind::Display) }
                } else {
                    *self = AwakeController {
                        system_assertion_id: Some(id),
                        display_assertion_id: None,
                        phase: Phase::Idle,
                    };
                    PowerStep { release: Vec::new(), next: PowerAction::Done(Ok(())) }
                }
            },
            (Phase::AwaitSystem { .. }, PowerReply::Created(AssertionKind::System, Err(code))) => {
                *self = AwakeController {
                    system_assertion_id: system,
                    display_assertion_id: display,
                    phase: Phase::Idle,
                };
                PowerStep {
                    release: Vec::new(),
                    next: PowerAction::Done(Err(AwakeError::CreateSystem(code))),
                }
            },
            (Phase::AwaitStartDisplay, PowerReply::Created(AssertionKind::Display, Ok(id))) => {
                *self = AwakeController {
                    system_assertion_id: system,
                    display_assertion_id: Some(id),
                    phase: Phase::Idle,
                };
                PowerStep { release: Vec::new(), next: PowerAction::Done(Ok(())) }
            },
            (Phase::AwaitStartDisplay, PowerReply::Created(AssertionKind::Display, Err(code))) => {
                let release = self.stop();
                PowerStep {
                    release,
                    next: PowerAction::Done(Err(AwakeError::CreateDisplay(code))),
                }
            },
            (Phase::AwaitAddDisplay, PowerReply::Created(AssertionKind::Display, Ok(id))) => {
                *self = AwakeController {
                    system_assertion_id: system,
                    display_assertion_id: Some(id),
                    phase: Phase::Idle,
                };
                PowerStep { release: Vec::new(), next: PowerAction::Done(Ok(())) }
            },
            (Phase::AwaitAddDisplay, PowerReply::Created(AssertionKind::Display, Err(code))) => {
                *self = AwakeController {
                    system_assertion_id: system,
                    display_assertion_id: display,
                    phase: Phase::Idle,
                };
                PowerStep {
                    release: Vec::new(),
                    next: PowerAction::Done(Err(AwakeError::CreateDisplay(code))),
                }
            },
            (Phase::AwaitRemoveDisplay, PowerReply::Released(code)) => {
                *self = AwakeController {
                    system_assertion_id: system,
                    display_assertion_id: display,
                    phase: Phase::Idle,
                };
                let result = if code == SUCCESS {
                    Ok(())
                } else {
                    Err(AwakeError::ReleaseDisplay(code))
                };
                PowerStep { release: Vec::new(), next: PowerAction::Done(result) }
            },
            (phase, _) => {
                let result = if phase == Phase::Idle {
                    Ok(())
                } else {
                    Err(AwakeError::UnexpectedReply)
                };
                let mut release: Vec<(AssertionKind, u32)> = Vec::new();
                if let PowerReply::Created(kind, Ok(id)) = reply {
                    release.push((kind, id));
                }
                proof {
                    assert(release@ =~= created_by(reply));
                }
                *self = AwakeController {
                    system_assertion_id: system,
                    display_assertion_id: display,
                    phase: Phase::Idle,
                };
                PowerStep { release, next: PowerAction::Done(result) }
            },
        }
    }

    /// True while a system assertion is live.
    pub fn is_active(&self) -> (b: bool)
        ensures
            b == (self@.system is Some),
    {
        self.system_assertion_id.is_some()
    }

    /// True while a display assertion is live.
    pub fn is_display_awake(&self) -> (b: bool)
        ensures
            b == (self@.display is Some),
    {
        self.display_assertion_id.is_some()
    }
}

impl Default for AwakeController {
    fn default() -> (c: Self)
        ensures
            c@ == AwakeModel::idle(),
    {
        AwakeController::new()
    }
}

/// Every request and every reply keeps the controller well formed: a
/// display assertion is never held without a system assertion.
pub proof fn law_transitions_keep_well_formed(m: AwakeModel, keep: bool, reply: PowerReply)
    requires
        m.wf(),
    ensures
        m.after_stop().0.wf(),
        m.after_start(keep).0.wf(),
        m.after_set_keep_display(keep).0.wf(),
        m.after_reply(reply).0.wf(),
{
}

/// No assertion id is ever lost: what the controller held, followed by what
/// a reply brought, is exactly what it holds afterwards followed by what it
/// hands back for release, in the same order.
pub proof fn law_no_assertion_lost(m: AwakeModel, keep: bool, reply: PowerReply)
    requires
        m.wf(),
    ensures
        m.held() == m.after_stop().0.held() + m.after_stop().1,
        m.held() == m.after_start(keep).0.held() + m.after_start(keep).1.handed_back(),
        m.held() == m.after_set_keep_display(keep).0.held() + m.after_set_keep_display(
            keep,
        ).1.handed_back(),
        m.held() + created_by(reply) == m.after_reply(reply).0.held() + m.after_reply(
            reply,
        ).1.handed_back(),
{
    assert(m.held() =~= m.after_stop().0.held() + m.after_stop().1);
    assert(m.held() =~= m.after_start(keep).0.held() + m.after_start(keep).1.handed_back());
    assert(m.held() =~= m.after_set_keep_display(keep).0.held() + m.after_set_keep_display(
        keep,
    ).1.handed_back());
    assert(m.held() + created_by(reply) =~= m.after_reply(reply).0.held() + m.after_reply(
        reply,
    ).1.handed_back());
}

/// A reply that the phase does not wait for leaves the held assertions as
/// they were, hands back any assertion it brings, ends with no request under
/// way, and fails a request that was under way.
pub proof fn law_stray_reply_ends_request(m: AwakeModel, reply: PowerReply)
    requires
        m.wf(),
        !expected_reply(m.phase, reply),
    ensures
        ({
            let (n, s) = m.after_reply(reply);
            &&& n.held() == m.held()
            &&& n.phase == Phase::Idle
            &&& s.release == created_by(reply)
            &&& s.next == done(stray_reply_result(m.phase))
        }),
{
}

/// `stop` can be called any number of times: a second call holds and
/// releases nothing.
pub proof fn law_stop_is_idempotent(m: AwakeModel)
    ensures
        m.after_stop().0.after_stop().0 == m.after_stop().0,
        m.after_stop().0.after_stop().1 == Seq::<(AssertionKind, u32)>::empty(),
        m.after_stop().0.system is None,
        m.after_stop().0.display is None,
{
    assert(m.after_stop().0.after_stop().1 =~= Seq::<(AssertionKind, u32)>::empty());
}

/// Starting again while a session runs first releases the running session's
/// assertions, so two starts never leave two live system assertions.
pub proof fn law_restart_releases_running_session(
    m: AwakeModel,
    keep: bool,
    id: u32,
    keep_again: bool,
)
    requires
        m.wf(),
    ensures
        ({
            let running = m.after_start(keep).0.after_reply(
                PowerReply::Created(AssertionKind::System, Ok(id)),
            ).0;
            let (restarted, s) = running.after_start(keep_again);
            &&& s.release.contains((AssertionKind::System, id))
            &&& restarted.held() == Seq::<(AssertionKind, u32)>::empty()
        }),
{
    let running = m.after_start(keep).0.after_reply(
        PowerReply::Created(AssertionKind::System, Ok(id)),
    ).0;
    assert(running.after_start(keep_again).1.release[0] == (AssertionKind::System, id));
    assert(running.after_start(keep_again).0.held() =~= Seq::<(AssertionKind, u32)>::empty());
}

/// A start whose platform calls all succeed ends active, with a display
/// assertion exactly when it was asked for, and reports success.
pub proof fn law_successful_start(m: AwakeModel, keep: bool, system_id: u32, display_id: u32)
    ensures
        ({
            let (s1, step1) = m.after_start(keep);
            let (s2, step2) = s1.after_reply(
                PowerReply::Created(AssertionKind::System, Ok(system_id)),
            );
            if keep {
                let (s3, step3) = s2.after_reply(
                    PowerReply::Created(AssertionKind::Display, Ok(display_id)),
                );
                &&& step2.next == PowerAction::Create(AssertionKind::Display)
                &&& s3 == AwakeModel {
                    system: Some(system_id),
                    display: Some(display_id),
                    phase: Phase::Idle,
                }
                &&& step3.next == done(Ok(()))
            } else {
                &&& s2 == AwakeModel { system: Some(system_id), display: None, phase: Phase::Idle }
                &&& step2.next == done(Ok(()))
            }
        }),
{
}

/// A start whose system assertion fails ends with nothing held and reports
/// the code.
pub proof fn law_start_system_failure(m: AwakeModel, keep: bool, code: i32)
    ensures
        ({
            let (s1, _) = m.after_start(keep);
            let (s2, step2) = s1.after_reply(
                PowerReply::Created(AssertionKind::System, Err(code)),
            );
            &&& s2.held() == Seq::<(AssertionKind, u32)>::empty()
            &&& s2.phase == Phase::Idle
            &&& step2.release == Seq::<(AssertionKind, u32)>::empty()
            &&& step2.next == done(Err(AwakeError::CreateSystem(code)))
        }),
{
    let (s1, _) = m.after_start(keep);
    assert(s1.after_reply(PowerReply::Created(AssertionKind::System, Err(code))).0.held()
        =~= Seq::<(AssertionKind, u32)>::empty());
    assert(s1.after_reply(PowerReply::Created(AssertionKind::System, Err(code))).1.release
        =~= Seq::<(AssertionKind, u32)>::empty());
}

/// A start whose display assertion fails rolls the system assertion back:
/// it is handed back for release, nothing stays held, and the display
/// failure is reported.
pub proof fn law_start_rolls_back_on_display_failure(m: AwakeModel, system_id: u32, code: i32)
    ensures
        ({
            let (s1, _) = m.after_start(true);
            let (s2, _) = s1.after_reply(
                PowerReply::Created(AssertionKind::System, Ok(system_id)),
            );
            let (s3, step3) = s2.after_reply(
                PowerReply::Created(AssertionKind::Display, Err(code)),
            );
            &&& s3 == AwakeModel::idle()
            &&& step3.release == seq![(AssertionKind::System, system_id)]
            &&& step3.next == done(Err(AwakeError::CreateDisplay(code)))
        }),
{
    let (s1, _) = m.after_start(true);
    let (s2, _) = s1.after_reply(PowerReply::Created(AssertionKind::System, Ok(system_id)));
    assert(s2.after_reply(PowerReply::Created(AssertionKind::Display, Err(code))).1.release
        =~= seq![(AssertionKind::System, system_id)]);
}

/// Outside a session the display option changes no assertion: nothing is
/// created or released, and the change succeeds.
pub proof fn law_display_option_outside_session(m: AwakeModel, keep: bool)
    requires
        m.wf(),
        m.system is None,
    ensures
        ({
            let (n, s) = m.after_set_keep_display(keep);
            &&& n.held() == m.held()
            &&& n.phase == Phase::Idle
            &&& s.release == Seq::<(AssertionKind, u32)>::empty()
            &&& s.next == done(Ok(()))
        }),
{
}

/// During a session without a display assertion, turning the option on and
/// then off again, with both platform calls succeeding, creates one display
/// assertion, releases that same assertion, and returns to the session as it
/// was.
pub proof fn law_display_option_round_trip(m: AwakeModel, display_id: u32)
    requires
        m.system is Some,
        m.display is None,
        m.phase == Phase::Idle,
    ensures
        ({
            let (s1, step1) = m.after_set_keep_display(true);
            let (s2, step2) = s1.after_reply(
                PowerReply::Created(AssertionKind::Display, Ok(display_id)),
            );
            let (s3, step3) = s2.after_set_keep_display(false);
            let (s4, step4) = s3.after_reply(PowerReply::Released(SUCCESS));
            &&& step1.next == PowerAction::Create(AssertionKind::Display)
            &&& s2.display == Some(display_id)
            &&& step2.next == done(Ok(()))
            &&& step3.next == PowerAction::Release(AssertionKind::Display, display_id)
            &&& s4 == m
            &&& step4.next == done(Ok(()))
        }),
{
}

} // verus!
