//! Mirroring the ledger on a remote contract: the decisions, one event at a
//! time. The caller talks to the network and reports back what happened.

use vstd::prelude::*;
use crate::color::ColorId;
use crate::ledger::{count_or_zero, run_of, seeded, CollectionLedger};
use crate::settings::{RemoteSettings, SettingsVerdict};

verus! {

/// Where the session stands with the remote ledger.
#[derive(Clone, Copy, Debug, PartialEq, Eq, Structural)]
pub enum SyncPhase {
    /// The settings have not been looked at yet.
    Starting,
    /// The settings are usable; the connection is being set up.
    Connecting,
    /// Connected; the count of this colour is being read.
    Reading { color: ColorId },
    /// The ledger is seeded; every pickup is sent on.
    Remote,
    /// No remote ledger in this session.
    LocalOnly,
}

/// What the caller reports.
#[derive(Clone, Copy, Debug, PartialEq, Eq, Structural)]
pub enum SyncEvent {
    /// The settings were looked up and judged.
    Settings { verdict: SettingsVerdict },
    /// The endpoint answered and the client is set up.
    Connected,
    /// The endpoint was refused by the client or did not answer in time.
    ConnectFailed,
    /// The count of a colour was read, or the read failed.
    CountRead { color: ColorId, count: Option<u64> },
    /// The player picked up an item, which the ledger has already recorded.
    Collected { color: ColorId },
    /// An increment sent earlier has succeeded or failed.
    WriteFinished { color: ColorId, ok: bool },
}

/// What the caller is to do next.
#[derive(Clone, Copy, Debug, PartialEq, Eq, Structural)]
pub enum SyncAction {
    Nothing,
    /// Reach the endpoint and set up the client.
    Connect,
    /// Warn that a setting is malformed and that the session runs without
    /// the remote ledger.
    WarnMalformed,
    /// Ask the contract for the count of this colour.
    ReadCount { color: ColorId },
    /// Send one increment for this colour, without waiting for it.
    Increment { color: ColorId },
}

/// The synchronizer's state: the phase, and how the writes went.
#[derive(Clone, Copy, Debug, PartialEq, Eq, Structural)]
pub struct LedgerSync {
    pub phase: SyncPhase,
    pub writes_confirmed: u64,
    pub writes_failed: u64,
}

/// A counter one higher, held at the largest value.
pub open spec fn bumped(n: u64) -> u64 {
    if n == u64::MAX {
        n
    } else {
        (n + 1) as u64
    }
}

impl LedgerSync {
    /// The phase after an event. An event that does not belong to the phase
    /// changes nothing.
    pub open spec fn phase_after(self, e: SyncEvent) -> SyncPhase {
        match (self.phase, e) {
            (SyncPhase::Starting, SyncEvent::Settings { verdict }) => if verdict
                == SettingsVerdict::Usable {
                SyncPhase::Connecting
            } else {
                SyncPhase::LocalOnly
            },
            (SyncPhase::Connecting, SyncEvent::Connected) => SyncPhase::Reading {
                color: ColorId::Red,
            },
            (SyncPhase::Connecting, SyncEvent::ConnectFailed) => SyncPhase::LocalOnly,
            (SyncPhase::Reading { color }, SyncEvent::CountRead { color: c, count }) => if c
                != color {
                self.phase
            } else if color == ColorId::Green {
                SyncPhase::Remote
            } else {
                SyncPhase::Reading { color: ColorId::at(color.index_of() as int + 1) }
            },
            _ => self.phase,
        }
    }

    /// The synchronizer after an event: the new phase, and the outcome of a
    /// write counted.
    pub open spec fn after(self, e: SyncEvent) -> LedgerSync {
        match e {
            SyncEvent::WriteFinished { color, ok } => if ok {
                LedgerSync { writes_confirmed: bumped(self.writes_confirmed), ..self }
            } else {
                LedgerSync { writes_failed: bumped(self.writes_failed), ..self }
            },
            _ => LedgerSync { phase: self.phase_after(e), ..self },
        }
    }

    /// What the caller is asked to do after an event.
    pub open spec fn action_for(self, e: SyncEvent) -> SyncAction {
        match (self.phase, e) {
            (SyncPhase::Starting, SyncEvent::Settings { verdict }) => match verdict {
                SettingsVerdict::Usable => SyncAction::Connect,
                SettingsVerdict::Malformed => SyncAction::WarnMalformed,
                SettingsVerdict::Missing => SyncAction::Nothing,
            },
            (SyncPhase::Connecting, SyncEvent::Connected) => SyncAction::ReadCount {
                color: ColorId::Red,
            },
            (SyncPhase::Reading { color }, SyncEvent::CountRead { color: c, count }) => if c
                == color && color != ColorId::Green {
                SyncAction::ReadCount { color: ColorId::at(color.index_of() as int + 1) }
            } else {
                SyncAction::Nothing
            },
            (SyncPhase::Remote, SyncEvent::Collected { color }) => SyncAction::Increment { color },
            _ => SyncAction::Nothing,
        }
    }

    /// The ledger after an event: only a count that arrives while that
    /// colour is being read adds to it, and a failed read adds nothing.
    pub open spec fn ledger_after(self, ledger: Seq<ColorId>, e: SyncEvent) -> Seq<ColorId> {
        match (self.phase, e) {
            (SyncPhase::Reading { color }, SyncEvent::CountRead { color: c, count }) => if c
                == color {
                ledger + run_of(color, count_or_zero(count))
            } else {
                ledger
            },
            _ => ledger,
        }
    }

    pub fn new() -> (r: LedgerSync)
        ensures
            r == (LedgerSync { phase: SyncPhase::Starting, writes_confirmed: 0, writes_failed: 0 }),
    {
        LedgerSync { phase: SyncPhase::Starting, writes_confirmed: 0, writes_failed: 0 }
    }

    /// Whether pickups are sent on to the remote ledger.
    pub fn is_remote(&self) -> (r: bool)
        ensures
            r == (self.phase == SyncPhase::Remote),
    {
        match self.phase {
            SyncPhase::Remote => true,
            _ => false,
        }
    }

    /// Judges the settings and takes the verdict as the first event of the
    /// session.
    pub fn configure(
        &mut self,
        ledger: &mut CollectionLedger,
        settings: &RemoteSettings,
    ) -> (action: SyncAction)
        ensures
            *final(self) == old(self).after(SyncEvent::Settings { verdict: settings.verdict_of() }),
            action == old(self).action_for(SyncEvent::Settings { verdict: settings.verdict_of() }),
            final(ledger)@ == old(ledger)@,
    {
        let verdict: SettingsVerdict = settings.verdict();
        self.step(ledger, SyncEvent::Settings { verdict })
    }

    /// Takes one event, updates the synchronizer and, during seeding, the
    /// ledger, and says what to do next.
    pub fn step(&mut self, ledger: &mut CollectionLedger, event: SyncEvent) -> (action: SyncAction)
        ensures
            *final(self) == old(self).after(event),
            action == old(self).action_for(event),
            final(ledger)@ == old(self).ledger_after(old(ledger)@, event),
    {
        match event {
            SyncEvent::Settings { verdict } => {
                match self.phase {
                    SyncPhase::Starting => {
                        match verdict {
                            SettingsVerdict::Usable => {
                                self.phase = SyncPhase::Connecting;
                                SyncAction::Connect
                            },
                            SettingsVerdict::Malformed => {
                                self.phase = SyncPhase::LocalOnly;
                                SyncAction::WarnMalformed
                            },
                            SettingsVerdict::Missing => {
                                self.phase = SyncPhase::LocalOnly;
                                SyncAction::Nothing
                            },
                        }
                    },
                    _ => SyncAction::Nothing,
                }
            },
            SyncEvent::Connected => {
                match self.phase {
                    SyncPhase::Connecting => {
                        self.phase = SyncPhase::Reading { color: ColorId::Red };
                        SyncAction::ReadCount { color: ColorId::Red }
                    },
                    _ => SyncAction::Nothing,
                }
            },
            SyncEvent::ConnectFailed => {
                match self.phase {
                    SyncPhase::Connecting => {
                        self.phase = SyncPhase::LocalOnly;
                        SyncAction::Nothing
                    },
                    _ => SyncAction::Nothing,
                }
            },
            SyncEvent::CountRead { color, count } => {
                match self.phase {
                    SyncPhase::Reading { color: awaited } => {
                        if color != awaited {
                            assert(ledger@ =~= old(ledger)@);
                            SyncAction::Nothing
                        } else {
                            let n: u64 = match count {
                                Some(n) => n,
                                None => 0,
                            };
                            ledger.seed(awaited, n);
                            match awaited {
                                ColorId::Red => {
                                    self.phase = SyncPhase::Reading { color: ColorId::Blue };
                                    SyncAction::ReadCount { color: ColorId::Blue }
                                },
                                ColorId::Blue => {
                                    self.phase = SyncPhase::Reading { color: ColorId::Green };
                                    SyncAction::ReadCount { color: ColorId::Green }
                                },
                                ColorId::Green => {
                                    self.phase = SyncPhase::Remote;
                                    SyncAction::Nothing
                                },
                            }
                        }
                    },
                    _ => SyncAction::Nothing,
                }
            },
            SyncEvent::Collected { color } => {
                match self.phase {
                    SyncPhase::Remote => SyncAction::Increment { color },
                    _ => SyncAction::Nothing,
                }
            },
            SyncEvent::WriteFinished { color, ok } => {
                if ok {
                    if self.writes_confirmed < u64::MAX {
                        self.writes_confirmed = self.writes_confirmed + 1;
                    }
                } else {
                    if self.writes_failed < u64::MAX {
                        self.writes_failed = self.writes_failed + 1;
                    }
                }
                SyncAction::Nothing
            },
        }
    }
}

/// No event takes anything out of the ledger or changes what it holds: what
/// was recorded stays, in its place.
pub proof fn ledger_only_grows(s: LedgerSync, ledger: Seq<ColorId>, e: SyncEvent)
    ensures
        s.ledger_after(ledger, e).len() >= ledger.len(),
        s.ledger_after(ledger, e).take(ledger.len() as int) == ledger,
{
    assert(s.ledger_after(ledger, e).take(ledger.len() as int) =~= ledger);
}

/// A pickup and the fate of its remote write never touch the ledger: what
/// the ledger holds after a pickup is what the pickup itself recorded.
pub proof fn writes_leave_ledger_alone(s: LedgerSync, ledger: Seq<ColorId>, e: SyncEvent)
    requires
        e is Collected || e is WriteFinished,
    ensures
        s.ledger_after(ledger, e) == ledger,
        s.after(e).phase == s.phase,
{
}

/// Once connected, the three reads seed the ledger with exactly the counts
/// read, a failed read counting as zero, and leave the session in the remote
/// phase.
pub proof fn startup_seeds_ledger(
    s: LedgerSync,
    ledger: Seq<ColorId>,
    red: Option<u64>,
    blue: Option<u64>,
    green: Option<u64>,
)
    requires
        s.phase == (SyncPhase::Reading { color: ColorId::Red }),
    ensures
        ({
            let e1 = SyncEvent::CountRead { color: ColorId::Red, count: red };
            let e2 = SyncEvent::CountRead { color: ColorId::Blue, count: blue };
            let e3 = SyncEvent::CountRead { color: ColorId::Green, count: green };
            let l1 = s.ledger_after(ledger, e1);
            let l2 = s.after(e1).ledger_after(l1, e2);
            let l3 = s.after(e1).after(e2).ledger_after(l2, e3);
            &&& l3 == seeded(ledger, count_or_zero(red), count_or_zero(blue), count_or_zero(green))
            &&& s.after(e1).after(e2).after(e3).phase == SyncPhase::Remote
        }),
{
}

/// Outside the remote phase a pickup asks for no write; in it, for exactly
/// one increment of the colour picked up.
pub proof fn one_increment_per_pickup(s: LedgerSync, color: ColorId)
    ensures
        s.action_for(SyncEvent::Collected { color }) == if s.phase == SyncPhase::Remote {
            SyncAction::Increment { color }
        } else {
            SyncAction::Nothing
        },
{
}

} // verus!
