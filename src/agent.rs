//! The extension protocol: register extension and log append as one step.
//!
//! An extension runs in three steps. `begin_init` or `begin_extend` builds the
//! entry and hands back the digest and the register to extend; the caller has
//! the attester extend the register and reports the outcome to
//! `register_extended`, which hands back the line to append; the caller writes
//! the line durably and reports the outcome to `log_written`. Only one
//! extension is under way at a time, and a failed register extension leaves
//! the log as it was.

use vstd::prelude::*;
use vstd::utf8::encode_utf8;
use crate::config::{Config, DEFAULT_PCR_INDEX};
use crate::error::AgentError;
use crate::eventlog::{
    canonical_text, init_entry_text, init_text, is_legal_event, log_history, record_digest,
    register_value, replay, EventEntry, EventLog, EventRecord,
};
use crate::hash::{repeat_char, HashAlgorithm};
use crate::token::{resolve_token_request, TokenRequest, TokenType};

verus! {

/// Where the agent stands in the extension protocol.
#[derive(Clone, Copy, Debug, PartialEq, Eq, Structural)]
pub enum Phase {
    /// No extension under way.
    Idle,
    /// An entry is built; its register extension is awaited.
    AwaitingRegister,
    /// The register was extended; the log write is awaited.
    AwaitingLog,
    /// A register was extended whose entry could not be logged. Terminal.
    Diverged,
}

/// Whether supplied init-data matches the value the environment is bound to.
#[derive(Clone, Copy, Debug, PartialEq, Eq, Structural)]
pub enum InitdataResult {
    Match,
    Mismatch,
    Unsupported,
}

/// What the attester is asked to do: extend `register_index` with `digest`.
#[derive(Debug)]
pub struct ExtendRequest {
    pub digest: Vec<u8>,
    pub register_index: u64,
}

/// The register a caller's optional index resolves to.
pub open spec fn resolved_index(register_index: Option<u64>) -> u64 {
    match register_index {
        Some(i) => i,
        None => DEFAULT_PCR_INDEX,
    }
}

/// The orchestrator: owns the configuration and the event log, and keeps the
/// log in lock-step with the registers it has extended.
pub struct AttestationAgent {
    config: Config,
    eventlog: EventLog,
    phase: Phase,
    pending: Option<EventRecord>,
    history: Ghost<Seq<(u64, Seq<u8>)>>,
}

impl AttestationAgent {
    pub closed spec fn spec_config(&self) -> Config {
        self.config
    }

    pub closed spec fn spec_log(&self) -> Seq<(HashAlgorithm, u64, Seq<char>)> {
        self.eventlog@
    }

    pub closed spec fn spec_phase(&self) -> Phase {
        self.phase
    }

    /// The entry of the extension under way, if any.
    pub closed spec fn spec_pending(&self) -> Option<(HashAlgorithm, u64, Seq<char>)> {
        match self.pending {
            Some(p) => Some(p@),
            None => None,
        }
    }

    /// The extensions the registers have received through this agent, in order.
    pub closed spec fn spec_history(&self) -> Seq<(u64, Seq<u8>)> {
        self.history@
    }

    /// The log describes exactly the extensions made, except while the entry
    /// of an extended register is being written, or after that write failed.
    pub closed spec fn wf(&self) -> bool {
        match self.phase {
            Phase::Idle => self.pending is None && self.history@ == log_history(self.eventlog@),
            Phase::AwaitingRegister => self.pending is Some && self.history@ == log_history(
                self.eventlog@,
            ),
            Phase::AwaitingLog => self.pending is Some && self.history@ == log_history(
                self.eventlog@.push(self.pending.unwrap()@),
            ),
            Phase::Diverged => self.pending is None,
        }
    }

    /// The same state: nothing changed.
    pub open spec fn same(&self, other: &Self) -> bool {
        &&& self.spec_config() == other.spec_config()
        &&& self.spec_log() == other.spec_log()
        &&& self.spec_phase() == other.spec_phase()
        &&& self.spec_pending() == other.spec_pending()
        &&& self.spec_history() == other.spec_history()
    }

    /// Starting an extension of `entry` into `index` under the configured
    /// algorithm, from `pre` to `post`, answered by `r`.
    pub open spec fn start_step(
        pre: &Self,
        post: &Self,
        entry: Seq<char>,
        index: u64,
        r: &Result<ExtendRequest, AgentError>,
    ) -> bool {
        let alg = pre.spec_config().eventlog_config.eventlog_algorithm;
        let rec = (alg, index, entry);
        &&& r matches Ok(req)
        &&& req.digest@ == record_digest(rec)
        &&& req.register_index == index
        &&& post.spec_phase() == Phase::AwaitingRegister
        &&& post.spec_pending() == Some(rec)
        &&& post.spec_config() == pre.spec_config()
        &&& post.spec_log() == pre.spec_log()
        &&& post.spec_history() == pre.spec_history()
    }

    /// What `begin_init` does.
    pub open spec fn begin_init_step(
        pre: &Self,
        post: &Self,
        r: &Result<ExtendRequest, AgentError>,
    ) -> bool {
        let alg = pre.spec_config().eventlog_config.eventlog_algorithm;
        if pre.spec_phase() == Phase::Diverged {
            *r == Err::<ExtendRequest, AgentError>(AgentError::Diverged) && post.same(pre)
        } else if pre.spec_phase() != Phase::Idle {
            *r == Err::<ExtendRequest, AgentError>(AgentError::Busy) && post.same(pre)
        } else if pre.spec_log().len() != 0 {
            *r == Err::<ExtendRequest, AgentError>(AgentError::AlreadyInitialized) && post.same(
                pre,
            )
        } else {
            Self::start_step(
                pre,
                post,
                init_text(alg),
                pre.spec_config().eventlog_config.init_pcr,
                r,
            )
        }
    }

    /// What `begin_extend` does.
    pub open spec fn begin_extend_step(
        pre: &Self,
        post: &Self,
        domain: Seq<char>,
        operation: Seq<char>,
        content: Seq<char>,
        register_index: Option<u64>,
        r: &Result<ExtendRequest, AgentError>,
    ) -> bool {
        if pre.spec_phase() == Phase::Diverged {
            *r == Err::<ExtendRequest, AgentError>(AgentError::Diverged) && post.same(pre)
        } else if pre.spec_phase() != Phase::Idle {
            *r == Err::<ExtendRequest, AgentError>(AgentError::Busy) && post.same(pre)
        } else if !is_legal_event(domain, operation, content) {
            *r == Err::<ExtendRequest, AgentError>(AgentError::InvalidEvent) && post.same(pre)
        } else {
            Self::start_step(
                pre,
                post,
                canonical_text(domain, operation, content),
                resolved_index(register_index),
                r,
            )
        }
    }

    /// What `register_extended` does with the attester's `outcome`.
    pub open spec fn register_extended_step(
        pre: &Self,
        post: &Self,
        outcome: Result<(), String>,
        r: &Result<String, AgentError>,
    ) -> bool {
        if pre.spec_phase() != Phase::AwaitingRegister {
            *r == Err::<String, AgentError>(AgentError::NoPendingExtension) && post.same(pre)
        } else {
            let rec = pre.spec_pending().unwrap();
            &&& post.spec_config() == pre.spec_config()
            &&& post.spec_log() == pre.spec_log()
            &&& match outcome {
                Ok(_) => {
                    &&& r matches Ok(line)
                    &&& line@ == rec.2
                    &&& post.spec_phase() == Phase::AwaitingLog
                    &&& post.spec_pending() == pre.spec_pending()
                    &&& post.spec_history() == pre.spec_history().push((rec.1, record_digest(rec)))
                },
                Err(m) => {
                    &&& *r == Err::<String, AgentError>(AgentError::Attester(m))
                    &&& post.spec_phase() == Phase::Idle
                    &&& post.spec_pending() is None
                    &&& post.spec_history() == pre.spec_history()
                },
            }
        }
    }

    /// What `log_written` does with the log writer's `outcome`.
    pub open spec fn log_written_step(
        pre: &Self,
        post: &Self,
        outcome: Result<(), String>,
        r: &Result<(), AgentError>,
    ) -> bool {
        if pre.spec_phase() != Phase::AwaitingLog {
            *r == Err::<(), AgentError>(AgentError::NoPendingExtension) && post.same(pre)
        } else {
            &&& post.spec_config() == pre.spec_config()
            &&& post.spec_history() == pre.spec_history()
            &&& post.spec_pending() is None
            &&& match outcome {
                Ok(_) => {
                    &&& *r == Ok::<(), AgentError>(())
                    &&& post.spec_phase() == Phase::Idle
                    &&& post.spec_log() == pre.spec_log().push(pre.spec_pending().unwrap())
                },
                Err(m) => {
                    &&& *r == Err::<(), AgentError>(AgentError::LogWrite(m))
                    &&& post.spec_phase() == Phase::Diverged
                    &&& post.spec_log() == pre.spec_log()
                },
            }
        }
    }

    /// An agent with `config` and an empty log.
    pub fn new(config: Config) -> (r: Self)
        ensures
            r.wf(),
            r.spec_config() == config,
            r.spec_log().len() == 0,
            r.spec_phase() == Phase::Idle,
            r.spec_pending() is None,
            r.spec_history().len() == 0,
    {
        let r = AttestationAgent {
            config,
            eventlog: EventLog::new(),
            phase: Phase::Idle,
            pending: None,
            history: Ghost(Seq::empty()),
        };
        assert(log_history(r.eventlog@) =~= Seq::empty());
        r
    }

    pub fn config(&self) -> (r: &Config)
        ensures
            *r == self.spec_config(),
    {
        &self.config
    }

    pub fn event_log(&self) -> (r: &EventLog)
        ensures
            r@ == self.spec_log(),
    {
        &self.eventlog
    }

    pub fn phase(&self) -> (r: Phase)
        ensures
            r == self.spec_phase(),
    {
        self.phase
    }

    /// Replaces the whole configuration; nothing else changes.
    pub fn update_configuration(&mut self, config: Config)
        requires
            old(self).wf(),
        ensures
            final(self).wf(),
            final(self).spec_config() == config,
            final(self).spec_log() == old(self).spec_log(),
            final(self).spec_phase() == old(self).spec_phase(),
            final(self).spec_pending() == old(self).spec_pending(),
            final(self).spec_history() == old(self).spec_history(),
    {
        self.config = config;
    }

    /// Resolves `token_type` to the configured backend that serves it.
    pub fn token_request(&self, token_type: &str) -> (r: Result<TokenRequest, AgentError>)
        ensures
            (forall|t: TokenType| t.spec_name() != token_type@) <==> r matches Err(
                AgentError::UnsupportedTokenType(_),
            ),
            r is Err ==> r matches Err(AgentError::UnsupportedTokenType(_)) || r matches Err(
                AgentError::TokenNotConfigured(_),
            ),
            token_type@ == TokenType::Kbs.spec_name() ==> match r {
                Ok(TokenRequest::Kbs(c)) => self.spec_config().token_configs.kbs == Some(c),
                Ok(TokenRequest::CoCoAS(_)) => false,
                Err(_) => self.spec_config().token_configs.kbs is None,
            },
            token_type@ == TokenType::CoCoAS.spec_name() ==> match r {
                Ok(TokenRequest::CoCoAS(c)) => self.spec_config().token_configs.coco_as == Some(c),
                Ok(TokenRequest::Kbs(_)) => false,
                Err(_) => self.spec_config().token_configs.coco_as is None,
            },
    {
        resolve_token_request(&self.config.token_configs, token_type)
    }

    fn start(&mut self, record: EventRecord) -> (r: Result<ExtendRequest, AgentError>)
        requires
            old(self).wf(),
            old(self).phase == Phase::Idle,
            record.algorithm == old(self).config.eventlog_config.eventlog_algorithm,
        ensures
            final(self).wf(),
            Self::start_step(old(self), final(self), record.text@, record.register_index, &r),
    {
        let digest = record.algorithm.digest(record.text.as_str().as_bytes());
        let register_index = record.register_index;
        self.pending = Some(record);
        self.phase = Phase::AwaitingRegister;
        Ok(ExtendRequest { digest, register_index })
    }

    /// Builds the entry that opens the log: `INIT <algorithm>/<zero digest>`,
    /// for the configured initial register.
    pub fn begin_init(&mut self) -> (r: Result<ExtendRequest, AgentError>)
        requires
            old(self).wf(),
        ensures
            final(self).wf(),
            Self::begin_init_step(old(self), final(self), &r),
    {
        if self.phase == Phase::Diverged {
            return Err(AgentError::Diverged);
        }
        if self.phase != Phase::Idle {
            return Err(AgentError::Busy);
        }
        if self.eventlog.len() != 0 {
            return Err(AgentError::AlreadyInitialized);
        }
        let alg = self.config.eventlog_config.eventlog_algorithm;
        let text = init_entry_text(alg);
        let record = EventRecord {
            algorithm: alg,
            register_index: self.config.eventlog_config.init_pcr,
            text,
        };
        self.start(record)
    }

    /// Builds the entry `<domain> <operation> <content>` for `register_index`,
    /// or for the default register when none is given.
    pub fn begin_extend(
        &mut self,
        domain: &str,
        operation: &str,
        content: &str,
        register_index: Option<u64>,
    ) -> (r: Result<ExtendRequest, AgentError>)
        requires
            old(self).wf(),
        ensures
            final(self).wf(),
            Self::begin_extend_step(
                old(self),
                final(self),
                domain@,
                operation@,
                content@,
                register_index,
                &r,
            ),
    {
        if self.phase == Phase::Diverged {
            return Err(AgentError::Diverged);
        }
        if self.phase != Phase::Idle {
            return Err(AgentError::Busy);
        }
        let entry = EventEntry::new(domain, operation, content);
        if !entry.is_legal() {
            return Err(AgentError::InvalidEvent);
        }
        let index = match register_index {
            Some(i) => i,
            None => DEFAULT_PCR_INDEX,
        };
        let record = EventRecord {
            algorithm: self.config.eventlog_config.eventlog_algorithm,
            register_index: index,
            text: entry.to_string(),
        };
        self.start(record)
    }

    /// Takes the outcome of the register extension. On success hands back
    /// the line to append; on failure the extension is dropped and the log
    /// stays as it was.
    pub fn register_extended(&mut self, outcome: Result<(), String>) -> (r: Result<
        String,
        AgentError,
    >)
        requires
            old(self).wf(),
        ensures
            final(self).wf(),
            Self::register_extended_step(old(self), final(self), outcome, &r),
    {
        if self.phase != Phase::AwaitingRegister {
            return Err(AgentError::NoPendingExtension);
        }
        match outcome {
            Ok(()) => {
                let line = match &self.pending {
                    Some(p) => p.text.clone(),
                    None => String::new(),
                };
                let ghost rec = self.pending.unwrap()@;
                proof {
                    assert(log_history(self.eventlog@.push(rec)) =~= log_history(
                        self.eventlog@,
                    ).push((rec.1, record_digest(rec))));
                    self.history@ = self.history@.push((rec.1, record_digest(rec)));
                }
                self.phase = Phase::AwaitingLog;
                Ok(line)
            },
            Err(m) => {
                self.pending = None;
                self.phase = Phase::Idle;
                Err(AgentError::Attester(m))
            },
        }
    }

    /// Drops an extension that was started and never finished, as when its
    /// caller went away while awaiting a step. Whether its register was
    /// extended is unknown, so the agent counts as diverged. Answers whether
    /// there was such an extension.
    pub fn abandon_pending(&mut self) -> (r: bool)
        requires
            old(self).wf(),
        ensures
            final(self).wf(),
            r == (old(self).spec_phase() == Phase::AwaitingRegister || old(self).spec_phase()
                == Phase::AwaitingLog),
            r ==> final(self).spec_phase() == Phase::Diverged && final(self).spec_pending() is None,
            !r ==> final(self).same(old(self)),
            final(self).spec_config() == old(self).spec_config(),
            final(self).spec_log() == old(self).spec_log(),
    {
        if self.phase == Phase::AwaitingRegister || self.phase == Phase::AwaitingLog {
            self.pending = None;
            self.phase = Phase::Diverged;
            true
        } else {
            false
        }
    }

    /// Takes the outcome of the durable log write. On success the entry joins
    /// the log; on failure register and log have diverged for good.
    pub fn log_written(&mut self, outcome: Result<(), String>) -> (r: Result<(), AgentError>)
        requires
            old(self).wf(),
        ensures
            final(self).wf(),
            Self::log_written_step(old(self), final(self), outcome, &r),
    {
        if self.phase != Phase::AwaitingLog {
            return Err(AgentError::NoPendingExtension);
        }
        let pending = self.pending.take();
        match outcome {
            Ok(()) => {
                match pending {
                    Some(p) => self.eventlog.write_log(p),
                    None => {},
                }
                self.phase = Phase::Idle;
                Ok(())
            },
            Err(m) => {
                self.phase = Phase::Diverged;
                Err(AgentError::LogWrite(m))
            },
        }
    }
}

/// When no extension is under way and log and registers have not diverged,
/// replaying the log through the chaining function gives, for every register
/// and every register hash, the value the extensions made through the agent
/// give that register. Every method keeps `wf`, so this holds after any
/// sequence of calls that ends idle.
pub proof fn lemma_log_reproduces_registers(
    agent: &AttestationAgent,
    register_alg: HashAlgorithm,
    index: u64,
)
    requires
        agent.wf(),
        agent.spec_phase() == Phase::Idle,
    ensures
        replay(register_alg, agent.spec_log(), index) == register_value(
            register_alg,
            agent.spec_history(),
            index,
        ),
{
}

/// Initialising an agent whose log is empty, with no extension after it,
/// leaves a log of exactly one entry: `INIT <algorithm>/` followed by the
/// configured algorithm's all-zero digest in hex, two digits per digest byte.
pub proof fn lemma_init_alone(
    a0: &AttestationAgent,
    a1: &AttestationAgent,
    a2: &AttestationAgent,
    a3: &AttestationAgent,
    r1: &Result<ExtendRequest, AgentError>,
    r2: &Result<String, AgentError>,
    r3: &Result<(), AgentError>,
)
    requires
        a0.spec_log().len() == 0,
        AttestationAgent::begin_init_step(a0, a1, r1),
        r1 is Ok,
        AttestationAgent::register_extended_step(a1, a2, Ok(()), r2),
        AttestationAgent::log_written_step(a2, a3, Ok(()), r3),
    ensures
        ({
            let alg = a0.spec_config().eventlog_config.eventlog_algorithm;
            &&& r3 is Ok
            &&& a3.spec_log().len() == 1
            &&& a3.spec_log()[0] == (alg, a0.spec_config().eventlog_config.init_pcr, init_text(
                alg,
            ))
            &&& init_text(alg) == seq!['I', 'N', 'I', 'T', ' '] + alg.spec_name() + seq!['/']
                + repeat_char('0', 2 * alg.digest_len())
            &&& a3.spec_phase() == Phase::Idle
        }),
{
    assert(a3.spec_log() =~= seq![a1.spec_pending().unwrap()]);
}

/// One extension that runs to completion adds exactly one entry, at the end
/// of the log, and exactly one extension of its register, with the digest of
/// that entry; the extensions the registers receive keep the order of the log.
pub proof fn lemma_extension_appends_one(
    a0: &AttestationAgent,
    a1: &AttestationAgent,
    a2: &AttestationAgent,
    a3: &AttestationAgent,
    domain: Seq<char>,
    operation: Seq<char>,
    content: Seq<char>,
    register_index: Option<u64>,
    r1: &Result<ExtendRequest, AgentError>,
    r2: &Result<String, AgentError>,
    r3: &Result<(), AgentError>,
)
    requires
        AttestationAgent::begin_extend_step(
            a0,
            a1,
            domain,
            operation,
            content,
            register_index,
            r1,
        ),
        r1 is Ok,
        AttestationAgent::register_extended_step(a1, a2, Ok(()), r2),
        AttestationAgent::log_written_step(a2, a3, Ok(()), r3),
    ensures
        ({
            let alg = a0.spec_config().eventlog_config.eventlog_algorithm;
            let rec = (alg, resolved_index(register_index), canonical_text(
                domain,
                operation,
                content,
            ));
            &&& r3 is Ok
            &&& a3.spec_log() == a0.spec_log().push(rec)
            &&& a3.spec_history() == a0.spec_history().push((rec.1, record_digest(rec)))
            &&& r1 matches Ok(req) && req.digest@ == record_digest(rec) && req.register_index
                == rec.1
        }),
{
}

/// A failed register extension appends nothing: the log and the registers
/// stay as they were, no extension is left under way, and the attester's
/// error reaches the caller.
pub proof fn lemma_failed_extension_leaves_log(
    a1: &AttestationAgent,
    a2: &AttestationAgent,
    message: String,
    r: &Result<String, AgentError>,
)
    requires
        a1.spec_phase() == Phase::AwaitingRegister,
        AttestationAgent::register_extended_step(a1, a2, Err(message), r),
    ensures
        a2.spec_log() == a1.spec_log(),
        a2.spec_log().len() == a1.spec_log().len(),
        a2.spec_history() == a1.spec_history(),
        a2.spec_phase() == Phase::Idle,
        *r == Err::<String, AgentError>(AgentError::Attester(message)),
{
}

} // verus!
