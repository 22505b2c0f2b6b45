//! The decisions of "get valid Codex tokens, refreshing if expired", as a step
//! function from stage and event to next stage and action.
//!
//! Resolution order:
//! 1. Stored OpenFang tokens (refreshed when expired and refreshable)
//! 2. Codex CLI tokens (`~/.codex/auth.json`), likewise
//! 3. None
//!
//! The caller performs each action (loading, refreshing, saving) and hands the
//! outcome back as the next event.

use vstd::prelude::*;

use super::{valid_at, CodexTokens};

verus! {

/// Where tokens are looked for, in this order.
#[derive(Debug, Clone, Copy, PartialEq, Eq, Structural)]
pub enum TokenSource {
    /// Tokens stored by OpenFang.
    Stored,
    /// Tokens of the Codex CLI.
    CodexCli,
}

/// Progress of a resolution.
#[derive(Debug, Clone, Copy, PartialEq, Eq, Structural)]
pub enum ResolveStage {
    /// Nothing done yet.
    Start,
    /// Waiting for the tokens of a source.
    Loading(TokenSource),
    /// Waiting for the refresh of a source's tokens.
    Refreshing(TokenSource),
    /// Resolution over.
    Done,
}

/// What the caller reports back.
pub enum ResolveEvent {
    /// Start resolving.
    Begin,
    /// The tokens of the source being loaded (if any), and the Unix time at which
    /// their validity is judged.
    Loaded { tokens: Option<CodexTokens>, now: u64 },
    /// The outcome of a refresh.
    Refreshed(Result<CodexTokens, String>),
}

/// What the caller is asked to do next.
pub enum ResolveAction {
    /// Load the tokens of a source.
    Load(TokenSource),
    /// Refresh with this refresh token.
    Refresh(String),
    /// Save these refreshed tokens, then return them (a failed save does not change the result).
    SaveAndReturn(CodexTokens),
    /// Return this result.
    Return(Option<CodexTokens>),
}

/// Whether an event is the kind that a stage waits for.
pub open spec fn expects(stage: ResolveStage, event: ResolveEvent) -> bool {
    match stage {
        ResolveStage::Start => event is Begin,
        ResolveStage::Loading(_) => event is Loaded,
        ResolveStage::Refreshing(_) => event is Refreshed,
        ResolveStage::Done => false,
    }
}

/// Moving on from a source that gave nothing usable.
pub open spec fn after_source(source: TokenSource) -> (ResolveStage, ResolveAction) {
    match source {
        TokenSource::Stored => (
            ResolveStage::Loading(TokenSource::CodexCli),
            ResolveAction::Load(TokenSource::CodexCli),
        ),
        TokenSource::CodexCli => (ResolveStage::Done, ResolveAction::Return(None)),
    }
}

/// One step of the resolution.
pub open spec fn resolve_next(stage: ResolveStage, event: ResolveEvent) -> (
    ResolveStage,
    ResolveAction,
) {
    match stage {
        ResolveStage::Start => (
            ResolveStage::Loading(TokenSource::Stored),
            ResolveAction::Load(TokenSource::Stored),
        ),
        ResolveStage::Loading(source) => match event {
            ResolveEvent::Loaded { tokens, now } => match tokens {
                None => after_source(source),
                Some(t) => if valid_at(t.expires_at, now) {
                    (ResolveStage::Done, ResolveAction::Return(Some(t)))
                } else {
                    match t.refresh_token {
                        Some(refresh) => (
                            ResolveStage::Refreshing(source),
                            ResolveAction::Refresh(refresh),
                        ),
                        None => after_source(source),
                    }
                },
            },
            _ => (ResolveStage::Done, ResolveAction::Return(None)),
        },
        ResolveStage::Refreshing(source) => match event {
            ResolveEvent::Refreshed(outcome) => match outcome {
                Ok(t) => (ResolveStage::Done, ResolveAction::SaveAndReturn(t)),
                Err(_) => after_source(source),
            },
            _ => (ResolveStage::Done, ResolveAction::Return(None)),
        },
        ResolveStage::Done => (ResolveStage::Done, ResolveAction::Return(None)),
    }
}

fn move_on_from(source: TokenSource) -> (r: (ResolveStage, ResolveAction))
    ensures
        r == after_source(source),
{
    match source {
        TokenSource::Stored => (
            ResolveStage::Loading(TokenSource::CodexCli),
            ResolveAction::Load(TokenSource::CodexCli),
        ),
        TokenSource::CodexCli => (ResolveStage::Done, ResolveAction::Return(None)),
    }
}

/// Decide the next stage and action from the current stage and the event it waited for.
pub fn resolve_step(stage: ResolveStage, event: ResolveEvent) -> (r: (ResolveStage, ResolveAction))
    requires
        expects(stage, event),
    ensures
        r == resolve_next(stage, event),
{
    match stage {
        ResolveStage::Start => (
            ResolveStage::Loading(TokenSource::Stored),
            ResolveAction::Load(TokenSource::Stored),
        ),
        ResolveStage::Loading(source) => match event {
            ResolveEvent::Loaded { tokens, now } => match tokens {
                None => move_on_from(source),
                Some(t) => if t.is_valid_at(now) {
                    (ResolveStage::Done, ResolveAction::Return(Some(t)))
                } else {
                    match t.refresh_token {
                        Some(refresh) => (
                            ResolveStage::Refreshing(source),
                            ResolveAction::Refresh(refresh),
                        ),
                        None => move_on_from(source),
                    }
                },
            },
            _ => (ResolveStage::Done, ResolveAction::Return(None)),
        },
        ResolveStage::Refreshing(source) => match event {
            ResolveEvent::Refreshed(outcome) => match outcome {
                Ok(t) => (ResolveStage::Done, ResolveAction::SaveAndReturn(t)),
                Err(_) => move_on_from(source),
            },
            _ => (ResolveStage::Done, ResolveAction::Return(None)),
        },
        ResolveStage::Done => (ResolveStage::Done, ResolveAction::Return(None)),
    }
}

/// What the outside world answers during one resolution: the tokens of each
/// source, the time each is judged at, and the outcome of refreshing each.
pub struct ResolveWorld {
    pub stored: Option<CodexTokens>,
    pub stored_now: u64,
    pub stored_refresh: Result<CodexTokens, String>,
    pub cli: Option<CodexTokens>,
    pub cli_now: u64,
    pub cli_refresh: Result<CodexTokens, String>,
}

/// The event with which the world answers an action taken at a stage.
pub open spec fn world_answer(w: ResolveWorld, stage: ResolveStage, action: ResolveAction) -> ResolveEvent {
    match action {
        ResolveAction::Load(TokenSource::Stored) => ResolveEvent::Loaded {
            tokens: w.stored,
            now: w.stored_now,
        },
        ResolveAction::Load(TokenSource::CodexCli) => ResolveEvent::Loaded {
            tokens: w.cli,
            now: w.cli_now,
        },
        _ => ResolveEvent::Refreshed(
            if stage == ResolveStage::Refreshing(TokenSource::Stored) {
                w.stored_refresh
            } else {
                w.cli_refresh
            },
        ),
    }
}

/// The final action of a resolution driven by a world, within `fuel` steps.
pub open spec fn run_resolution(
    w: ResolveWorld,
    stage: ResolveStage,
    event: ResolveEvent,
    fuel: nat,
) -> ResolveAction
    decreases fuel,
{
    let (next, action) = resolve_next(stage, event);
    if fuel == 0 || action is SaveAndReturn || action is Return {
        action
    } else {
        run_resolution(w, next, world_answer(w, next, action), (fuel - 1) as nat)
    }
}

/// What one source contributes: its tokens when valid, its refreshed tokens when
/// it is expired but refreshable and the refresh succeeds, else nothing.
pub open spec fn source_outcome(
    tokens: Option<CodexTokens>,
    now: u64,
    refresh: Result<CodexTokens, String>,
) -> Option<ResolveAction> {
    match tokens {
        Some(t) => if valid_at(t.expires_at, now) {
            Some(ResolveAction::Return(Some(t)))
        } else if t.refresh_token is Some && refresh is Ok {
            Some(ResolveAction::SaveAndReturn(refresh->Ok_0))
        } else {
            None
        },
        None => None,
    }
}

/// A resolution driven from the start ends as the resolution order says: the
/// stored tokens' outcome if they give one, else the Codex CLI tokens' outcome,
/// else nothing.
pub proof fn lemma_resolution_order(w: ResolveWorld)
    ensures
        run_resolution(w, ResolveStage::Start, ResolveEvent::Begin, 5) == match source_outcome(
            w.stored,
            w.stored_now,
            w.stored_refresh,
        ) {
            Some(a) => a,
            None => match source_outcome(w.cli, w.cli_now, w.cli_refresh) {
                Some(a) => a,
                None => ResolveAction::Return(None),
            },
        },
{
    reveal_with_fuel(run_resolution, 6);
}

/// Tokens handed back without a refresh were valid when they were judged.
pub proof fn lemma_returned_tokens_valid(stage: ResolveStage, event: ResolveEvent)
    requires
        resolve_next(stage, event).1 matches ResolveAction::Return(Some(t)),
    ensures
        event matches ResolveEvent::Loaded { tokens, now } && tokens == Some(
            resolve_next(stage, event).1->Return_0->Some_0,
        ) && valid_at(resolve_next(stage, event).1->Return_0->Some_0.expires_at, now),
{
}

/// A refresh is asked only for loaded tokens that are no longer valid, with their own refresh token.
pub proof fn lemma_refresh_only_when_expired(stage: ResolveStage, event: ResolveEvent)
    requires
        resolve_next(stage, event).1 matches ResolveAction::Refresh(r),
    ensures
        event matches ResolveEvent::Loaded { tokens, now } && tokens matches Some(t) && !valid_at(
            t.expires_at,
            now,
        ) && t.refresh_token == Some(resolve_next(stage, event).1->Refresh_0),
{
}

} // verus!
