//! Distinct reason codes of a PTY input are reported by distinct texts.
use vstd::prelude::*;
use crate::send::{reason_code_text, PtyInputReasonCode as C};

verus! {

/// The reason code a text names, if any: the inverse of
/// [`reason_code_text`], trying the codes with the shortest texts first.
pub open spec fn reason_code_named(text: Seq<char>) -> Option<C> {
    if text == reason_code_text(C::Busy) {
        Some(C::Busy)
    } else if text == reason_code_text(C::Expired) {
        Some(C::Expired)
    } else if text == reason_code_text(C::InvalidId) {
        Some(C::InvalidId)
    } else if text == reason_code_text(C::LeaseLost) {
        Some(C::LeaseLost)
    } else if text == reason_code_text(C::UnsafePath) {
        Some(C::UnsafePath)
    } else if text == reason_code_text(C::SessionRace) {
        Some(C::SessionRace)
    } else if text == reason_code_text(C::InvalidText) {
        Some(C::InvalidText)
    } else if text == reason_code_text(C::MixedPayload) {
        Some(C::MixedPayload)
    } else if text == reason_code_text(C::InvalidNonce) {
        Some(C::InvalidNonce)
    } else if text == reason_code_text(C::StoreCorrupt) {
        Some(C::StoreCorrupt)
    } else if text == reason_code_text(C::InvalidTarget) {
        Some(C::InvalidTarget)
    } else if text == reason_code_text(C::StoreTransient) {
        Some(C::StoreTransient)
    } else if text == reason_code_text(C::ResizeUnsettled) {
        Some(C::ResizeUnsettled)
    } else if text == reason_code_text(C::ApiClientStale) {
        Some(C::ApiClientStale)
    } else if text == reason_code_text(C::InvalidEnvelope) {
        Some(C::InvalidEnvelope)
    } else if text == reason_code_text(C::CapacityExceeded) {
        Some(C::CapacityExceeded)
    } else if text == reason_code_text(C::AuthorityChanged) {
        Some(C::AuthorityChanged)
    } else if text == reason_code_text(C::TextWriteFailed) {
        Some(C::TextWriteFailed)
    } else if text == reason_code_text(C::SpawnFailedSafe) {
        Some(C::SpawnFailedSafe)
    } else if text == reason_code_text(C::PayloadTooLarge) {
        Some(C::PayloadTooLarge)
    } else if text == reason_code_text(C::InvalidTimestamp) {
        Some(C::InvalidTimestamp)
    } else if text == reason_code_text(C::TargetNotMember) {
        Some(C::TargetNotMember)
    } else if text == reason_code_text(C::PurgeInProgress) {
        Some(C::PurgeInProgress)
    } else if text == reason_code_text(C::ReadinessTimeout) {
        Some(C::ReadinessTimeout)
    } else if text == reason_code_text(C::ArtifactUnclaimed) {
        Some(C::ArtifactUnclaimed)
    } else if text == reason_code_text(C::ApiScopeRequired) {
        Some(C::ApiScopeRequired)
    } else if text == reason_code_text(C::ApiClientUnbound) {
        Some(C::ApiClientUnbound)
    } else if text == reason_code_text(C::InvalidEnterMode) {
        Some(C::InvalidEnterMode)
    } else if text == reason_code_text(C::UnsupportedProfile) {
        Some(C::UnsupportedProfile)
    } else if text == reason_code_text(C::TargetOutOfScope) {
        Some(C::TargetOutOfScope)
    } else if text == reason_code_text(C::UnsupportedVersion) {
        Some(C::UnsupportedVersion)
    } else if text == reason_code_text(C::UnsupportedSession) {
        Some(C::UnsupportedSession)
    } else if text == reason_code_text(C::UntrackedReadiness) {
        Some(C::UntrackedReadiness)
    } else if text == reason_code_text(C::RestoreInProgress) {
        Some(C::RestoreInProgress)
    } else if text == reason_code_text(C::ApiBindingMismatch) {
        Some(C::ApiBindingMismatch)
    } else if text == reason_code_text(C::InconsistentSession) {
        Some(C::InconsistentSession)
    } else if text == reason_code_text(C::IdempotencyConflict) {
        Some(C::IdempotencyConflict)
    } else if text == reason_code_text(C::TerminalStoreFailed) {
        Some(C::TerminalStoreFailed)
    } else if text == reason_code_text(C::RequiredEnterFailed) {
        Some(C::RequiredEnterFailed)
    } else if text == reason_code_text(C::RootIdentityInvalid) {
        Some(C::RootIdentityInvalid)
    } else if text == reason_code_text(C::InvalidSessionToken) {
        Some(C::InvalidSessionToken)
    } else if text == reason_code_text(C::TargetIsCoordinator) {
        Some(C::TargetIsCoordinator)
    } else if text == reason_code_text(C::RedundantEnterFailed) {
        Some(C::RedundantEnterFailed)
    } else if text == reason_code_text(C::SessionTokenRequired) {
        Some(C::SessionTokenRequired)
    } else if text == reason_code_text(C::SenderNotCoordinator) {
        Some(C::SenderNotCoordinator)
    } else if text == reason_code_text(C::SenderIdentityInvalid) {
        Some(C::SenderIdentityInvalid)
    } else if text == reason_code_text(C::SenderSessionNotLive) {
        Some(C::SenderSessionNotLive)
    } else if text == reason_code_text(C::AmbiguousSessionToken) {
        Some(C::AmbiguousSessionToken)
    } else if text == reason_code_text(C::BoundaryMetadataFailed) {
        Some(C::BoundaryMetadataFailed)
    } else if text == reason_code_text(C::SenderBackendNotLocal) {
        Some(C::SenderBackendNotLocal)
    } else if text == reason_code_text(C::RuntimeActuationOrphan) {
        Some(C::RuntimeActuationOrphan)
    } else if text == reason_code_text(C::FinalRevalidationFailed) {
        Some(C::FinalRevalidationFailed)
    } else if text == reason_code_text(C::NonpersistentLiveSession) {
        Some(C::NonpersistentLiveSession)
    } else if text == reason_code_text(C::DaemonRestartAfterActuation) {
        Some(C::DaemonRestartAfterActuation)
    } else {
        None
    }
}

/// The text of a code names that code.
#[verifier::spinoff_prover]
proof fn lemma_text_names_code(code: C)
    ensures
        reason_code_named(reason_code_text(code)) == Some(code),
{
    reveal_strlit("busy");
    reveal_strlit("expired");
    reveal_strlit("invalid_id");
    reveal_strlit("lease_lost");
    reveal_strlit("unsafe_path");
    reveal_strlit("session_race");
    reveal_strlit("invalid_text");
    reveal_strlit("mixed_payload");
    reveal_strlit("invalid_nonce");
    reveal_strlit("store_corrupt");
    reveal_strlit("invalid_target");
    reveal_strlit("store_transient");
    reveal_strlit("resize_unsettled");
    reveal_strlit("api_client_stale");
    reveal_strlit("invalid_envelope");
    reveal_strlit("capacity_exceeded");
    reveal_strlit("authority_changed");
    reveal_strlit("text_write_failed");
    reveal_strlit("spawn_failed_safe");
    reveal_strlit("payload_too_large");
    reveal_strlit("invalid_timestamp");
    reveal_strlit("target_not_member");
    reveal_strlit("purge_in_progress");
    reveal_strlit("readiness_timeout");
    reveal_strlit("artifact_unclaimed");
    reveal_strlit("api_scope_required");
    reveal_strlit("api_client_unbound");
    reveal_strlit("invalid_enter_mode");
    reveal_strlit("unsupported_profile");
    reveal_strlit("target_out_of_scope");
    reveal_strlit("unsupported_version");
    reveal_strlit("unsupported_session");
    reveal_strlit("untracked_readiness");
    reveal_strlit("restore_in_progress");
    reveal_strlit("api_binding_mismatch");
    reveal_strlit("inconsistent_session");
    reveal_strlit("idempotency_conflict");
    reveal_strlit("terminal_store_failed");
    reveal_strlit("required_enter_failed");
    reveal_strlit("root_identity_invalid");
    reveal_strlit("invalid_session_token");
    reveal_strlit("target_is_coordinator");
    reveal_strlit("redundant_enter_failed");
    reveal_strlit("session_token_required");
    reveal_strlit("sender_not_coordinator");
    reveal_strlit("sender_identity_invalid");
    reveal_strlit("sender_session_not_live");
    reveal_strlit("ambiguous_session_token");
    reveal_strlit("boundary_metadata_failed");
    reveal_strlit("sender_backend_not_local");
    reveal_strlit("runtime_actuation_orphan");
    reveal_strlit("final_revalidation_failed");
    reveal_strlit("nonpersistent_live_session");
    reveal_strlit("daemon_restart_after_actuation");
    match code {
        C::Busy => {
        },
        C::Expired => {
            assert(reason_code_text(C::Expired).len() != reason_code_text(C::Busy).len());
        },
        C::InvalidId => {
            assert(reason_code_text(C::InvalidId).len() != reason_code_text(C::Busy).len());
            assert(reason_code_text(C::InvalidId).len() != reason_code_text(C::Expired).len());
        },
        C::LeaseLost => {
            assert(reason_code_text(C::LeaseLost).len() != reason_code_text(C::Busy).len());
            assert(reason_code_text(C::LeaseLost).len() != reason_code_text(C::Expired).len());
            assert(reason_code_text(C::LeaseLost)[0] != reason_code_text(C::InvalidId)[0]);
        },
        C::UnsafePath => {
            assert(reason_code_text(C::UnsafePath).len() != reason_code_text(C::Busy).len());
            assert(reason_code_text(C::UnsafePath).len() != reason_code_text(C::Expired).len());
            assert(reason_code_text(C::UnsafePath).len() != reason_code_text(C::InvalidId).len());
            assert(reason_code_text(C::UnsafePath).len() != reason_code_text(C::LeaseLost).len());
        },
        C::SessionRace => {
            assert(reason_code_text(C::SessionRace).len() != reason_code_text(C::Busy).len());
            assert(reason_code_text(C::SessionRace).len() != reason_code_text(C::Expired).len());
            assert(reason_code_text(C::SessionRace).len() != reason_code_text(C::InvalidId).len());
            assert(reason_code_text(C::SessionRace).len() != reason_code_text(C::LeaseLost).len());
            assert(reason_code_text(C::SessionRace).len() != reason_code_text(C::UnsafePath).len());
        },
        C::InvalidText => {
            assert(reason_code_text(C::InvalidText).len() != reason_code_text(C::Busy).len());
            assert(reason_code_text(C::InvalidText).len() != reason_code_text(C::Expired).len());
            assert(reason_code_text(C::InvalidText).len() != reason_code_text(C::InvalidId).len());
            assert(reason_code_text(C::InvalidText).len() != reason_code_text(C::LeaseLost).len());
            assert(reason_code_text(C::InvalidText).len() != reason_code_text(C::UnsafePath).len());
            assert(reason_code_text(C::InvalidText)[0] != reason_code_text(C::SessionRace)[0]);
        },
        C::MixedPayload => {
            assert(reason_code_text(C::MixedPayload).len() != reason_code_text(C::Busy).len());
            assert(reason_code_text(C::MixedPayload).len() != reason_code_text(C::Expired).len());
            assert(reason_code_text(C::MixedPayload).len() != reason_code_text(C::InvalidId).len());
            assert(reason_code_text(C::MixedPayload).len() != reason_code_text(C::LeaseLost).len());
            assert(reason_code_text(C::MixedPayload).len() != reason_code_text(C::UnsafePath).len());
            assert(reason_code_text(C::MixedPayload).len() != reason_code_text(C::SessionRace).len());
            assert(reason_code_text(C::MixedPayload).len() != reason_code_text(C::InvalidText).len());
        },
        C::InvalidNonce => {
            assert(reason_code_text(C::InvalidNonce).len() != reason_code_text(C::Busy).len());
            assert(reason_code_text(C::InvalidNonce).len() != reason_code_text(C::Expired).len());
            assert(reason_code_text(C::InvalidNonce).len() != reason_code_text(C::InvalidId).len());
            assert(reason_code_text(C::InvalidNonce).len() != reason_code_text(C::LeaseLost).len());
            assert(reason_code_text(C::InvalidNonce).len() != reason_code_text(C::UnsafePath).len());
            assert(reason_code_text(C::InvalidNonce).len() != reason_code_text(C::SessionRace).len());
            assert(reason_code_text(C::InvalidNonce).len() != reason_code_text(C::InvalidText).len());
            assert(reason_code_text(C::InvalidNonce)[0] != reason_code_text(C::MixedPayload)[0]);
        },
        C::StoreCorrupt => {
            assert(reason_code_text(C::StoreCorrupt).len() != reason_code_text(C::Busy).len());
            assert(reason_code_text(C::StoreCorrupt).len() != reason_code_text(C::Expired).len());
            assert(reason_code_text(C::StoreCorrupt).len() != reason_code_text(C::InvalidId).len());
            assert(reason_code_text(C::StoreCorrupt).len() != reason_code_text(C::LeaseLost).len());
            assert(reason_code_text(C::StoreCorrupt).len() != reason_code_text(C::UnsafePath).len());
            assert(reason_code_text(C::StoreCorrupt).len() != reason_code_text(C::SessionRace).len());
            assert(reason_code_text(C::StoreCorrupt).len() != reason_code_text(C::InvalidText).len());
            assert(reason_code_text(C::StoreCorrupt)[0] != reason_code_text(C::MixedPayload)[0]);
            assert(reason_code_text(C::StoreCorrupt)[0] != reason_code_text(C::InvalidNonce)[0]);
        },
        C::InvalidTarget => {
            assert(reason_code_text(C::InvalidTarget).len() != reason_code_text(C::Busy).len());
            assert(reason_code_text(C::InvalidTarget).len() != reason_code_text(C::Expired).len());
            assert(reason_code_text(C::InvalidTarget).len() != reason_code_text(C::InvalidId).len());
            assert(reason_code_text(C::InvalidTarget).len() != reason_code_text(C::LeaseLost).len());
            assert(reason_code_text(C::InvalidTarget).len() != reason_code_text(C::UnsafePath).len());
            assert(reason_code_text(C::InvalidTarget).len() != reason_code_text(C::SessionRace).len());
            assert(reason_code_text(C::InvalidTarget).len() != reason_code_text(C::InvalidText).len());
            assert(reason_code_text(C::InvalidTarget).len() != reason_code_text(C::MixedPayload).len());
            assert(reason_code_text(C::InvalidTarget).len() != reason_code_text(C::InvalidNonce).len());
            assert(reason_code_text(C::InvalidTarget).len() != reason_code_text(C::StoreCorrupt).len());
        },
        C::StoreTransient => {
            assert(reason_code_text(C::StoreTransient).len() != reason_code_text(C::Busy).len());
            assert(reason_code_text(C::StoreTransient).len() != reason_code_text(C::Expired).len());
            assert(reason_code_text(C::StoreTransient).len() != reason_code_text(C::InvalidId).len());
            assert(reason_code_text(C::StoreTransient).len() != reason_code_text(C::LeaseLost).len());
            assert(reason_code_text(C::StoreTransient).len() != reason_code_text(C::UnsafePath).len());
            assert(reason_code_text(C::StoreTransient).len() != reason_code_text(C::SessionRace).len());
            assert(reason_code_text(C::StoreTransient).len() != reason_code_text(C::InvalidText).len());
            assert(reason_code_text(C::StoreTransient).len() != reason_code_text(C::MixedPayload).len());
            assert(reason_code_text(C::StoreTransient).len() != reason_code_text(C::InvalidNonce).len());
            assert(reason_code_text(C::StoreTransient).len() != reason_code_text(C::StoreCorrupt).len());
            assert(reason_code_text(C::StoreTransient).len() != reason_code_text(C::InvalidTarget).len());
        },
        C::ResizeUnsettled => {
            assert(reason_code_text(C::ResizeUnsettled).len() != reason_code_text(C::Busy).len());
            assert(reason_code_text(C::ResizeUnsettled).len() != reason_code_text(C::Expired).len());
            assert(reason_code_text(C::ResizeUnsettled).len() != reason_code_text(C::InvalidId).len());
            assert(reason_code_text(C::ResizeUnsettled).len() != reason_code_text(C::LeaseLost).len());
            assert(reason_code_text(C::ResizeUnsettled).len() != reason_code_text(C::UnsafePath).len());
            assert(reason_code_text(C::ResizeUnsettled).len() != reason_code_text(C::SessionRace).len());
            assert(reason_code_text(C::ResizeUnsettled).len() != reason_code_text(C::InvalidText).len());
            assert(reason_code_text(C::ResizeUnsettled).len() != reason_code_text(C::MixedPayload).len());
            assert(reason_code_text(C::ResizeUnsettled).len() != reason_code_text(C::InvalidNonce).len());
            assert(reason_code_text(C::ResizeUnsettled).len() != reason_code_text(C::StoreCorrupt).len());
            assert(reason_code_text(C::ResizeUnsettled).len() != reason_code_text(C::InvalidTarget).len());
            assert(reason_code_text(C::ResizeUnsettled).len() != reason_code_text(C::StoreTransient).len());
        },
        C::ApiClientStale => {
            assert(reason_code_text(C::ApiClientStale).len() != reason_code_text(C::Busy).len());
            assert(reason_code_text(C::ApiClientStale).len() != reason_code_text(C::Expired).len());
            assert(reason_code_text(C::ApiClientStale).len() != reason_code_text(C::InvalidId).len());
            assert(reason_code_text(C::ApiClientStale).len() != reason_code_text(C::LeaseLost).len());
            assert(reason_code_text(C::ApiClientStale).len() != reason_code_text(C::UnsafePath).len());
            assert(reason_code_text(C::ApiClientStale).len() != reason_code_text(C::SessionRace).len());
            assert(reason_code_text(C::ApiClientStale).len() != reason_code_text(C::InvalidText).len());
            assert(reason_code_text(C::ApiClientStale).len() != reason_code_text(C::MixedPayload).len());
            assert(reason_code_text(C::ApiClientStale).len() != reason_code_text(C::InvalidNonce).len());
            assert(reason_code_text(C::ApiClientStale).len() != reason_code_text(C::StoreCorrupt).len());
            assert(reason_code_text(C::ApiClientStale).len() != reason_code_text(C::InvalidTarget).len());
            assert(reason_code_text(C::ApiClientStale).len() != reason_code_text(C::StoreTransient).len());
            assert(reason_code_text(C::ApiClientStale)[0] != reason_code_text(C::ResizeUnsettled)[0]);
        },
        C::InvalidEnvelope => {
            assert(reason_code_text(C::InvalidEnvelope).len() != reason_code_text(C::Busy).len());
            assert(reason_code_text(C::InvalidEnvelope).len() != reason_code_text(C::Expired).len());
            assert(reason_code_text(C::InvalidEnvelope).len() != reason_code_text(C::InvalidId).len());
            assert(reason_code_text(C::InvalidEnvelope).len() != reason_code_text(C::LeaseLost).len());
            assert(reason_code_text(C::InvalidEnvelope).len() != reason_code_text(C::UnsafePath).len());
            assert(reason_code_text(C::InvalidEnvelope).len() != reason_code_text(C::SessionRace).len());
            assert(reason_code_text(C::InvalidEnvelope).len() != reason_code_text(C::InvalidText).len());
            assert(reason_code_text(C::InvalidEnvelope).len() != reason_code_text(C::MixedPayload).len());
            assert(reason_code_text(C::InvalidEnvelope).len() != reason_code_text(C::InvalidNonce).len());
            assert(reason_code_text(C::InvalidEnvelope).len() != reason_code_text(C::StoreCorrupt).len());
            assert(reason_code_text(C::InvalidEnvelope).len() != reason_code_text(C::InvalidTarget).len());
            assert(reason_code_text(C::InvalidEnvelope).len() != reason_code_text(C::StoreTransient).len());
            assert(reason_code_text(C::InvalidEnvelope)[0] != reason_code_text(C::ResizeUnsettled)[0]);
            assert(reason_code_text(C::InvalidEnvelope)[0] != reason_code_text(C::ApiClientStale)[0]);
        },
        C::CapacityExceeded => {
            assert(reason_code_text(C::CapacityExceeded).len() != reason_code_text(C::Busy).len());
            assert(reason_code_text(C::CapacityExceeded).len() != reason_code_text(C::Expired).len());
            assert(reason_code_text(C::CapacityExceeded).len() != reason_code_text(C::InvalidId).len());
            assert(reason_code_text(C::CapacityExceeded).len() != reason_code_text(C::LeaseLost).len());
            assert(reason_code_text(C::CapacityExceeded).len() != reason_code_text(C::UnsafePath).len());
            assert(reason_code_text(C::CapacityExceeded).len() != reason_code_text(C::SessionRace).len());
            assert(reason_code_text(C::CapacityExceeded).len() != reason_code_text(C::InvalidText).len());
            assert(reason_code_text(C::CapacityExceeded).len() != reason_code_text(C::MixedPayload).len());
            assert(reason_code_text(C::CapacityExceeded).len() != reason_code_text(C::InvalidNonce).len());
            assert(reason_code_text(C::CapacityExceeded).len() != reason_code_text(C::StoreCorrupt).len());
            assert(reason_code_text(C::CapacityExceeded).len() != reason_code_text(C::InvalidTarget).len());
            assert(reason_code_text(C::CapacityExceeded).len() != reason_code_text(C::StoreTransient).len());
            assert(reason_code_text(C::CapacityExceeded).len() != reason_code_text(C::ResizeUnsettled).len());
            assert(reason_code_text(C::CapacityExceeded).len() != reason_code_text(C::ApiClientStale).len());
            assert(reason_code_text(C::CapacityExceeded).len() != reason_code_text(C::InvalidEnvelope).len());
        },
        C::AuthorityChanged => {
            assert(reason_code_text(C::AuthorityChanged).len() != reason_code_text(C::Busy).len());
            assert(reason_code_text(C::AuthorityChanged).len() != reason_code_text(C::Expired).len());
            assert(reason_code_text(C::AuthorityChanged).len() != reason_code_text(C::InvalidId).len());
            assert(reason_code_text(C::AuthorityChanged).len() != reason_code_text(C::LeaseLost).len());
            assert(reason_code_text(C::AuthorityChanged).len() != reason_code_text(C::UnsafePath).len());
            assert(reason_code_text(C::AuthorityChanged).len() != reason_code_text(C::SessionRace).len());
            assert(reason_code_text(C::AuthorityChanged).len() != reason_code_text(C::InvalidText).len());
            assert(reason_code_text(C::AuthorityChanged).len() != reason_code_text(C::MixedPayload).len());
            assert(reason_code_text(C::AuthorityChanged).len() != reason_code_text(C::InvalidNonce).len());
            assert(reason_code_text(C::AuthorityChanged).len() != reason_code_text(C::StoreCorrupt).len());
            assert(reason_code_text(C::AuthorityChanged).len() != reason_code_text(C::InvalidTarget).len());
            assert(reason_code_text(C::AuthorityChanged).len() != reason_code_text(C::StoreTransient).len());
            assert(reason_code_text(C::AuthorityChanged).len() != reason_code_text(C::ResizeUnsettled).len());
            assert(reason_code_text(C::AuthorityChanged).len() != reason_code_text(C::ApiClientStale).len());
            assert(reason_code_text(C::AuthorityChanged).len() != reason_code_text(C::InvalidEnvelope).len());
            assert(reason_code_text(C::AuthorityChanged)[0] != reason_code_text(C::CapacityExceeded)[0]);
        },
        C::TextWriteFailed => {
            assert(reason_code_text(C::TextWriteFailed).len() != reason_code_text(C::Busy).len());
            assert(reason_code_text(C::TextWriteFailed).len() != reason_code_text(C::Expired).len());
            assert(reason_code_text(C::TextWriteFailed).len() != reason_code_text(C::InvalidId).len());
            assert(reason_code_text(C::TextWriteFailed).len() != reason_code_text(C::LeaseLost).len());
            assert(reason_code_text(C::TextWriteFailed).len() != reason_code_text(C::UnsafePath).len());
            assert(reason_code_text(C::TextWriteFailed).len() != reason_code_text(C::SessionRace).len());
            assert(reason_code_text(C::TextWriteFailed).len() != reason_code_text(C::InvalidText).len());
            assert(reason_code_text(C::TextWriteFailed).len() != reason_code_text(C::MixedPayload).len());
            assert(reason_code_text(C::TextWriteFailed).len() != reason_code_text(C::InvalidNonce).len());
            assert(reason_code_text(C::TextWriteFailed).len() != reason_code_text(C::StoreCorrupt).len());
            assert(reason_code_text(C::TextWriteFailed).len() != reason_code_text(C::InvalidTarget).len());
            assert(reason_code_text(C::TextWriteFailed).len() != reason_code_text(C::StoreTransient).len());
            assert(reason_code_text(C::TextWriteFailed).len() != reason_code_text(C::ResizeUnsettled).len());
            assert(reason_code_text(C::TextWriteFailed).len() != reason_code_text(C::ApiClientStale).len());
            assert(reason_code_text(C::TextWriteFailed).len() != reason_code_text(C::InvalidEnvelope).len());
            assert(reason_code_text(C::TextWriteFailed)[0] != reason_code_text(C::CapacityExceeded)[0]);
            assert(reason_code_text(C::TextWriteFailed)[0] != reason_code_text(C::AuthorityChanged)[0]);
        },
        C::SpawnFailedSafe => {
            assert(reason_code_text(C::SpawnFailedSafe).len() != reason_code_text(C::Busy).len());
            assert(reason_code_text(C::SpawnFailedSafe).len() != reason_code_text(C::Expired).len());
            assert(reason_code_text(C::SpawnFailedSafe).len() != reason_code_text(C::InvalidId).len());
            assert(reason_code_text(C::SpawnFailedSafe).len() != reason_code_text(C::LeaseLost).len());
            assert(reason_code_text(C::SpawnFailedSafe).len() != reason_code_text(C::UnsafePath).len());
            assert(reason_code_text(C::SpawnFailedSafe).len() != reason_code_text(C::SessionRace).len());
            assert(reason_code_text(C::SpawnFailedSafe).len() != reason_code_text(C::InvalidText).len());
            assert(reason_code_text(C::SpawnFailedSafe).len() != reason_code_text(C::MixedPayload).len());
            assert(reason_code_text(C::SpawnFailedSafe).len() != reason_code_text(C::InvalidNonce).len());
            assert(reason_code_text(C::SpawnFailedSafe).len() != reason_code_text(C::StoreCorrupt).len());
            assert(reason_code_text(C::SpawnFailedSafe).len() != reason_code_text(C::InvalidTarget).len());
            assert(reason_code_text(C::SpawnFailedSafe).len() != reason_code_text(C::StoreTransient).len());
            assert(reason_code_text(C::SpawnFailedSafe).len() != reason_code_text(C::ResizeUnsettled).len());
            assert(reason_code_text(C::SpawnFailedSafe).len() != reason_code_text(C::ApiClientStale).len());
            assert(reason_code_text(C::SpawnFailedSafe).len() != reason_code_text(C::InvalidEnvelope).len());
            assert(reason_code_text(C::SpawnFailedSafe)[0] != reason_code_text(C::CapacityExceeded)[0]);
            assert(reason_code_text(C::SpawnFailedSafe)[0] != reason_code_text(C::AuthorityChanged)[0]);
            assert(reason_code_text(C::SpawnFailedSafe)[0] != reason_code_text(C::TextWriteFailed)[0]);
        },
        C::PayloadTooLarge => {
            assert(reason_code_text(C::PayloadTooLarge).len() != reason_code_text(C::Busy).len());
            assert(reason_code_text(C::PayloadTooLarge).len() != reason_code_text(C::Expired).len());
            assert(reason_code_text(C::PayloadTooLarge).len() != reason_code_text(C::InvalidId).len());
            assert(reason_code_text(C::PayloadTooLarge).len() != reason_code_text(C::LeaseLost).len());
            assert(reason_code_text(C::PayloadTooLarge).len() != reason_code_text(C::UnsafePath).len());
            assert(reason_code_text(C::PayloadTooLarge).len() != reason_code_text(C::SessionRace).len());
            assert(reason_code_text(C::PayloadTooLarge).len() != reason_code_text(C::InvalidText).len());
            assert(reason_code_text(C::PayloadTooLarge).len() != reason_code_text(C::MixedPayload).len());
            assert(reason_code_text(C::PayloadTooLarge).len() != reason_code_text(C::InvalidNonce).len());
            assert(reason_code_text(C::PayloadTooLarge).len() != reason_code_text(C::StoreCorrupt).len());
            assert(reason_code_text(C::PayloadTooLarge).len() != reason_code_text(C::InvalidTarget).len());
            assert(reason_code_text(C::PayloadTooLarge).len() != reason_code_text(C::StoreTransient).len());
            assert(reason_code_text(C::PayloadTooLarge).len() != reason_code_text(C::ResizeUnsettled).len());
            assert(reason_code_text(C::PayloadTooLarge).len() != reason_code_text(C::ApiClientStale).len());
            assert(reason_code_text(C::PayloadTooLarge).len() != reason_code_text(C::InvalidEnvelope).len());
            assert(reason_code_text(C::PayloadTooLarge)[0] != reason_code_text(C::CapacityExceeded)[0]);
            assert(reason_code_text(C::PayloadTooLarge)[0] != reason_code_text(C::AuthorityChanged)[0]);
            assert(reason_code_text(C::PayloadTooLarge)[0] != reason_code_text(C::TextWriteFailed)[0]);
            assert(reason_code_text(C::PayloadTooLarge)[0] != reason_code_text(C::SpawnFailedSafe)[0]);
        },
        C::InvalidTimestamp => {
            assert(reason_code_text(C::InvalidTimestamp).len() != reason_code_text(C::Busy).len());
            assert(reason_code_text(C::InvalidTimestamp).len() != reason_code_text(C::Expired).len());
            assert(reason_code_text(C::InvalidTimestamp).len() != reason_code_text(C::InvalidId).len());
            assert(reason_code_text(C::InvalidTimestamp).len() != reason_code_text(C::LeaseLost).len());
            assert(reason_code_text(C::InvalidTimestamp).len() != reason_code_text(C::UnsafePath).len());
            assert(reason_code_text(C::InvalidTimestamp).len() != reason_code_text(C::SessionRace).len());
            assert(reason_code_text(C::InvalidTimestamp).len() != reason_code_text(C::InvalidText).len());
            assert(reason_code_text(C::InvalidTimestamp).len() != reason_code_text(C::MixedPayload).len());
            assert(reason_code_text(C::InvalidTimestamp).len() != reason_code_text(C::InvalidNonce).len());
            assert(reason_code_text(C::InvalidTimestamp).len() != reason_code_text(C::StoreCorrupt).len());
            assert(reason_code_text(C::InvalidTimestamp).len() != reason_code_text(C::InvalidTarget).len());
            assert(reason_code_text(C::InvalidTimestamp).len() != reason_code_text(C::StoreTransient).len());
            assert(reason_code_text(C::InvalidTimestamp).len() != reason_code_text(C::ResizeUnsettled).len());
            assert(reason_code_text(C::InvalidTimestamp).len() != reason_code_text(C::ApiClientStale).len());
            assert(reason_code_text(C::InvalidTimestamp).len() != reason_code_text(C::InvalidEnvelope).len());
            assert(reason_code_text(C::InvalidTimestamp)[0] != reason_code_text(C::CapacityExceeded)[0]);
            assert(reason_code_text(C::InvalidTimestamp)[0] != reason_code_text(C::AuthorityChanged)[0]);
            assert(reason_code_text(C::InvalidTimestamp)[0] != reason_code_text(C::TextWriteFailed)[0]);
            assert(reason_code_text(C::InvalidTimestamp)[0] != reason_code_text(C::SpawnFailedSafe)[0]);
            assert(reason_code_text(C::InvalidTimestamp)[0] != reason_code_text(C::PayloadTooLarge)[0]);
        },
        C::TargetNotMember => {
            assert(reason_code_text(C::TargetNotMember).len() != reason_code_text(C::Busy).len());
            assert(reason_code_text(C::TargetNotMember).len() != reason_code_text(C::Expired).len());
            assert(reason_code_text(C::TargetNotMember).len() != reason_code_text(C::InvalidId).len());
            assert(reason_code_text(C::TargetNotMember).len() != reason_code_text(C::LeaseLost).len());
            assert(reason_code_text(C::TargetNotMember).len() != reason_code_text(C::UnsafePath).len());
            assert(reason_code_text(C::TargetNotMember).len() != reason_code_text(C::SessionRace).len());
            assert(reason_code_text(C::TargetNotMember).len() != reason_code_text(C::InvalidText).len());
            assert(reason_code_text(C::TargetNotMember).len() != reason_code_text(C::MixedPayload).len());
            assert(reason_code_text(C::TargetNotMember).len() != reason_code_text(C::InvalidNonce).len());
            assert(reason_code_text(C::TargetNotMember).len() != reason_code_text(C::StoreCorrupt).len());
            assert(reason_code_text(C::TargetNotMember).len() != reason_code_text(C::InvalidTarget).len());
            assert(reason_code_text(C::TargetNotMember).len() != reason_code_text(C::StoreTransient).len());
            assert(reason_code_text(C::TargetNotMember).len() != reason_code_text(C::ResizeUnsettled).len());
            assert(reason_code_text(C::TargetNotMember).len() != reason_code_text(C::ApiClientStale).len());
            assert(reason_code_text(C::TargetNotMember).len() != reason_code_text(C::InvalidEnvelope).len());
            assert(reason_code_text(C::TargetNotMember)[0] != reason_code_text(C::CapacityExceeded)[0]);
            assert(reason_code_text(C::TargetNotMember)[0] != reason_code_text(C::AuthorityChanged)[0]);
            assert(reason_code_text(C::TargetNotMember)[1] != reason_code_text(C::TextWriteFailed)[1]);
            assert(reason_code_text(C::TargetNotMember)[0] != reason_code_text(C::SpawnFailedSafe)[0]);
            assert(reason_code_text(C::TargetNotMember)[0] != reason_code_text(C::PayloadTooLarge)[0]);
            assert(reason_code_text(C::TargetNotMember)[0] != reason_code_text(C::InvalidTimestamp)[0]);
        },
        C::PurgeInProgress => {
            assert(reason_code_text(C::PurgeInProgress).len() != reason_code_text(C::Busy).len());
            assert(reason_code_text(C::PurgeInProgress).len() != reason_code_text(C::Expired).len());
            assert(reason_code_text(C::PurgeInProgress).len() != reason_code_text(C::InvalidId).len());
            assert(reason_code_text(C::PurgeInProgress).len() != reason_code_text(C::LeaseLost).len());
            assert(reason_code_text(C::PurgeInProgress).len() != reason_code_text(C::UnsafePath).len());
            assert(reason_code_text(C::PurgeInProgress).len() != reason_code_text(C::SessionRace).len());
            assert(reason_code_text(C::PurgeInProgress).len() != reason_code_text(C::InvalidText).len());
            assert(reason_code_text(C::PurgeInProgress).len() != reason_code_text(C::MixedPayload).len());
            assert(reason_code_text(C::PurgeInProgress).len() != reason_code_text(C::InvalidNonce).len());
            assert(reason_code_text(C::PurgeInProgress).len() != reason_code_text(C::StoreCorrupt).len());
            assert(reason_code_text(C::PurgeInProgress).len() != reason_code_text(C::InvalidTarget).len());
            assert(reason_code_text(C::PurgeInProgress).len() != reason_code_text(C::StoreTransient).len());
            assert(reason_code_text(C::PurgeInProgress).len() != reason_code_text(C::ResizeUnsettled).len());
            assert(reason_code_text(C::PurgeInProgress).len() != reason_code_text(C::ApiClientStale).len());
            assert(reason_code_text(C::PurgeInProgress).len() != reason_code_text(C::InvalidEnvelope).len());
            assert(reason_code_text(C::PurgeInProgress)[0] != reason_code_text(C::CapacityExceeded)[0]);
            assert(reason_code_text(C::PurgeInProgress)[0] != reason_code_text(C::AuthorityChanged)[0]);
            assert(reason_code_text(C::PurgeInProgress)[0] != reason_code_text(C::TextWriteFailed)[0]);
            assert(reason_code_text(C::PurgeInProgress)[0] != reason_code_text(C::SpawnFailedSafe)[0]);
            assert(reason_code_text(C::PurgeInProgress)[1] != reason_code_text(C::PayloadTooLarge)[1]);
            assert(reason_code_text(C::PurgeInProgress)[0] != reason_code_text(C::InvalidTimestamp)[0]);
            assert(reason_code_text(C::PurgeInProgress)[0] != reason_code_text(C::TargetNotMember)[0]);
        },
        C::ReadinessTimeout => {
            assert(reason_code_text(C::ReadinessTimeout).len() != reason_code_text(C::Busy).len());
            assert(reason_code_text(C::ReadinessTimeout).len() != reason_code_text(C::Expired).len());
            assert(reason_code_text(C::ReadinessTimeout).len() != reason_code_text(C::InvalidId).len());
            assert(reason_code_text(C::ReadinessTimeout).len() != reason_code_text(C::LeaseLost).len());
            assert(reason_code_text(C::ReadinessTimeout).len() != reason_code_text(C::UnsafePath).len());
            assert(reason_code_text(C::ReadinessTimeout).len() != reason_code_text(C::SessionRace).len());
            assert(reason_code_text(C::ReadinessTimeout).len() != reason_code_text(C::InvalidText).len());
            assert(reason_code_text(C::ReadinessTimeout).len() != reason_code_text(C::MixedPayload).len());
            assert(reason_code_text(C::ReadinessTimeout).len() != reason_code_text(C::InvalidNonce).len());
            assert(reason_code_text(C::ReadinessTimeout).len() != reason_code_text(C::StoreCorrupt).len());
            assert(reason_code_text(C::ReadinessTimeout).len() != reason_code_text(C::InvalidTarget).len());
            assert(reason_code_text(C::ReadinessTimeout).len() != reason_code_text(C::StoreTransient).len());
            assert(reason_code_text(C::ReadinessTimeout).len() != reason_code_text(C::ResizeUnsettled).len());
            assert(reason_code_text(C::ReadinessTimeout).len() != reason_code_text(C::ApiClientStale).len());
            assert(reason_code_text(C::ReadinessTimeout).len() != reason_code_text(C::InvalidEnvelope).len());
            assert(reason_code_text(C::ReadinessTimeout)[0] != reason_code_text(C::CapacityExceeded)[0]);
            assert(reason_code_text(C::ReadinessTimeout)[0] != reason_code_text(C::AuthorityChanged)[0]);
            assert(reason_code_text(C::ReadinessTimeout)[0] != reason_code_text(C::TextWriteFailed)[0]);
            assert(reason_code_text(C::ReadinessTimeout)[0] != reason_code_text(C::SpawnFailedSafe)[0]);
            assert(reason_code_text(C::ReadinessTimeout)[0] != reason_code_text(C::PayloadTooLarge)[0]);
            assert(reason_code_text(C::ReadinessTimeout)[0] != reason_code_text(C::InvalidTimestamp)[0]);
            assert(reason_code_text(C::ReadinessTimeout)[0] != reason_code_text(C::TargetNotMember)[0]);
            assert(reason_code_text(C::ReadinessTimeout)[0] != reason_code_text(C::PurgeInProgress)[0]);
        },
        C::ArtifactUnclaimed => {
            assert(reason_code_text(C::ArtifactUnclaimed).len() != reason_code_text(C::Busy).len());
            assert(reason_code_text(C::ArtifactUnclaimed).len() != reason_code_text(C::Expired).len());
            assert(reason_code_text(C::ArtifactUnclaimed).len() != reason_code_text(C::InvalidId).len());
            assert(reason_code_text(C::ArtifactUnclaimed).len() != reason_code_text(C::LeaseLost).len());
            assert(reason_code_text(C::ArtifactUnclaimed).len() != reason_code_text(C::UnsafePath).len());
            assert(reason_code_text(C::ArtifactUnclaimed).len() != reason_code_text(C::SessionRace).len());
            assert(reason_code_text(C::ArtifactUnclaimed).len() != reason_code_text(C::InvalidText).len());
            assert(reason_code_text(C::ArtifactUnclaimed).len() != reason_code_text(C::MixedPayload).len());
            assert(reason_code_text(C::ArtifactUnclaimed).len() != reason_code_text(C::InvalidNonce).len());
            assert(reason_code_text(C::ArtifactUnclaimed).len() != reason_code_text(C::StoreCorrupt).len());
            assert(reason_code_text(C::ArtifactUnclaimed).len() != reason_code_text(C::InvalidTarget).len());
            assert(reason_code_text(C::ArtifactUnclaimed).len() != reason_code_text(C::StoreTransient).len());
            assert(reason_code_text(C::ArtifactUnclaimed).len() != reason_code_text(C::ResizeUnsettled).len());
            assert(reason_code_text(C::ArtifactUnclaimed).len() != reason_code_text(C::ApiClientStale).len());
            assert(reason_code_text(C::ArtifactUnclaimed).len() != reason_code_text(C::InvalidEnvelope).len());
            assert(reason_code_text(C::ArtifactUnclaimed).len() != reason_code_text(C::CapacityExceeded).len());
            assert(reason_code_text(C::ArtifactUnclaimed).len() != reason_code_text(C::AuthorityChanged).len());
            assert(reason_code_text(C::ArtifactUnclaimed).len() != reason_code_text(C::TextWriteFailed).len());
            assert(reason_code_text(C::ArtifactUnclaimed).len() != reason_code_text(C::SpawnFailedSafe).len());
            assert(reason_code_text(C::ArtifactUnclaimed).len() != reason_code_text(C::PayloadTooLarge).len());
            assert(reason_code_text(C::ArtifactUnclaimed).len() != reason_code_text(C::InvalidTimestamp).len());
            assert(reason_code_text(C::ArtifactUnclaimed).len() != reason_code_text(C::TargetNotMember).len());
            assert(reason_code_text(C::ArtifactUnclaimed).len() != reason_code_text(C::PurgeInProgress).len());
            assert(reason_code_text(C::ArtifactUnclaimed).len() != reason_code_text(C::ReadinessTimeout).len());
        },
        C::ApiScopeRequired => {
            assert(reason_code_text(C::ApiScopeRequired).len() != reason_code_text(C::Busy).len());
            assert(reason_code_text(C::ApiScopeRequired).len() != reason_code_text(C::Expired).len());
            assert(reason_code_text(C::ApiScopeRequired).len() != reason_code_text(C::InvalidId).len());
            assert(reason_code_text(C::ApiScopeRequired).len() != reason_code_text(C::LeaseLost).len());
            assert(reason_code_text(C::ApiScopeRequired).len() != reason_code_text(C::UnsafePath).len());
            assert(reason_code_text(C::ApiScopeRequired).len() != reason_code_text(C::SessionRace).len());
            assert(reason_code_text(C::ApiScopeRequired).len() != reason_code_text(C::InvalidText).len());
            assert(reason_code_text(C::ApiScopeRequired).len() != reason_code_text(C::MixedPayload).len());
            assert(reason_code_text(C::ApiScopeRequired).len() != reason_code_text(C::InvalidNonce).len());
            assert(reason_code_text(C::ApiScopeRequired).len() != reason_code_text(C::StoreCorrupt).len());
            assert(reason_code_text(C::ApiScopeRequired).len() != reason_code_text(C::InvalidTarget).len());
            assert(reason_code_text(C::ApiScopeRequired).len() != reason_code_text(C::StoreTransient).len());
            assert(reason_code_text(C::ApiScopeRequired).len() != reason_code_text(C::ResizeUnsettled).len());
            assert(reason_code_text(C::ApiScopeRequired).len() != reason_code_text(C::ApiClientStale).len());
            assert(reason_code_text(C::ApiScopeRequired).len() != reason_code_text(C::InvalidEnvelope).len());
            assert(reason_code_text(C::ApiScopeRequired).len() != reason_code_text(C::CapacityExceeded).len());
            assert(reason_code_text(C::ApiScopeRequired).len() != reason_code_text(C::AuthorityChanged).len());
            assert(reason_code_text(C::ApiScopeRequired).len() != reason_code_text(C::TextWriteFailed).len());
            assert(reason_code_text(C::ApiScopeRequired).len() != reason_code_text(C::SpawnFailedSafe).len());
            assert(reason_code_text(C::ApiScopeRequired).len() != reason_code_text(C::PayloadTooLarge).len());
            assert(reason_code_text(C::ApiScopeRequired).len() != reason_code_text(C::InvalidTimestamp).len());
            assert(reason_code_text(C::ApiScopeRequired).len() != reason_code_text(C::TargetNotMember).len());
            assert(reason_code_text(C::ApiScopeRequired).len() != reason_code_text(C::PurgeInProgress).len());
            assert(reason_code_text(C::ApiScopeRequired).len() != reason_code_text(C::ReadinessTimeout).len());
            assert(reason_code_text(C::ApiScopeRequired)[1] != reason_code_text(C::ArtifactUnclaimed)[1]);
        },
        C::ApiClientUnbound => {
            assert(reason_code_text(C::ApiClientUnbound).len() != reason_code_text(C::Busy).len());
            assert(reason_code_text(C::ApiClientUnbound).len() != reason_code_text(C::Expired).len());
            assert(reason_code_text(C::ApiClientUnbound).len() != reason_code_text(C::InvalidId).len());
            assert(reason_code_text(C::ApiClientUnbound).len() != reason_code_text(C::LeaseLost).len());
            assert(reason_code_text(C::ApiClientUnbound).len() != reason_code_text(C::UnsafePath).len());
            assert(reason_code_text(C::ApiClientUnbound).len() != reason_code_text(C::SessionRace).len());
            assert(reason_code_text(C::ApiClientUnbound).len() != reason_code_text(C::InvalidText).len());
            assert(reason_code_text(C::ApiClientUnbound).len() != reason_code_text(C::MixedPayload).len());
            assert(reason_code_text(C::ApiClientUnbound).len() != reason_code_text(C::InvalidNonce).len());
            assert(reason_code_text(C::ApiClientUnbound).len() != reason_code_text(C::StoreCorrupt).len());
            assert(reason_code_text(C::ApiClientUnbound).len() != reason_code_text(C::InvalidTarget).len());
            assert(reason_code_text(C::ApiClientUnbound).len() != reason_code_text(C::StoreTransient).len());
            assert(reason_code_text(C::ApiClientUnbound).len() != reason_code_text(C::ResizeUnsettled).len());
            assert(reason_code_text(C::ApiClientUnbound).len() != reason_code_text(C::ApiClientStale).len());
            assert(reason_code_text(C::ApiClientUnbound).len() != reason_code_text(C::InvalidEnvelope).len());
            assert(reason_code_text(C::ApiClientUnbound).len() != reason_code_text(C::CapacityExceeded).len());
            assert(reason_code_text(C::ApiClientUnbound).len() != reason_code_text(C::AuthorityChanged).len());
            assert(reason_code_text(C::ApiClientUnbound).len() != reason_code_text(C::TextWriteFailed).len());
            assert(reason_code_text(C::ApiClientUnbound).len() != reason_code_text(C::SpawnFailedSafe).len());
            assert(reason_code_text(C::ApiClientUnbound).len() != reason_code_text(C::PayloadTooLarge).len());
            assert(reason_code_text(C::ApiClientUnbound).len() != reason_code_text(C::InvalidTimestamp).len());
            assert(reason_code_text(C::ApiClientUnbound).len() != reason_code_text(C::TargetNotMember).len());
            assert(reason_code_text(C::ApiClientUnbound).len() != reason_code_text(C::PurgeInProgress).len());
            assert(reason_code_text(C::ApiClientUnbound).len() != reason_code_text(C::ReadinessTimeout).len());
            assert(reason_code_text(C::ApiClientUnbound)[1] != reason_code_text(C::ArtifactUnclaimed)[1]);
            assert(reason_code_text(C::ApiClientUnbound)[4] != reason_code_text(C::ApiScopeRequired)[4]);
        },
        C::InvalidEnterMode => {
            assert(reason_code_text(C::InvalidEnterMode).len() != reason_code_text(C::Busy).len());
            assert(reason_code_text(C::InvalidEnterMode).len() != reason_code_text(C::Expired).len());
            assert(reason_code_text(C::InvalidEnterMode).len() != reason_code_text(C::InvalidId).len());
            assert(reason_code_text(C::InvalidEnterMode).len() != reason_code_text(C::LeaseLost).len());
            assert(reason_code_text(C::InvalidEnterMode).len() != reason_code_text(C::UnsafePath).len());
            assert(reason_code_text(C::InvalidEnterMode).len() != reason_code_text(C::SessionRace).len());
            assert(reason_code_text(C::InvalidEnterMode).len() != reason_code_text(C::InvalidText).len());
            assert(reason_code_text(C::InvalidEnterMode).len() != reason_code_text(C::MixedPayload).len());
            assert(reason_code_text(C::InvalidEnterMode).len() != reason_code_text(C::InvalidNonce).len());
            assert(reason_code_text(C::InvalidEnterMode).len() != reason_code_text(C::StoreCorrupt).len());
            assert(reason_code_text(C::InvalidEnterMode).len() != reason_code_text(C::InvalidTarget).len());
            assert(reason_code_text(C::InvalidEnterMode).len() != reason_code_text(C::StoreTransient).len());
            assert(reason_code_text(C::InvalidEnterMode).len() != reason_code_text(C::ResizeUnsettled).len());
            assert(reason_code_text(C::InvalidEnterMode).len() != reason_code_text(C::ApiClientStale).len());
            assert(reason_code_text(C::InvalidEnterMode).len() != reason_code_text(C::InvalidEnvelope).len());
            assert(reason_code_text(C::InvalidEnterMode).len() != reason_code_text(C::CapacityExceeded).len());
            assert(reason_code_text(C::InvalidEnterMode).len() != reason_code_text(C::AuthorityChanged).len());
            assert(reason_code_text(C::InvalidEnterMode).len() != reason_code_text(C::TextWriteFailed).len());
            assert(reason_code_text(C::InvalidEnterMode).len() != reason_code_text(C::SpawnFailedSafe).len());
            assert(reason_code_text(C::InvalidEnterMode).len() != reason_code_text(C::PayloadTooLarge).len());
            assert(reason_code_text(C::InvalidEnterMode).len() != reason_code_text(C::InvalidTimestamp).len());
            assert(reason_code_text(C::InvalidEnterMode).len() != reason_code_text(C::TargetNotMember).len());
            assert(reason_code_text(C::InvalidEnterMode).len() != reason_code_text(C::PurgeInProgress).len());
            assert(reason_code_text(C::InvalidEnterMode).len() != reason_code_text(C::ReadinessTimeout).len());
            assert(reason_code_text(C::InvalidEnterMode)[0] != reason_code_text(C::ArtifactUnclaimed)[0]);
            assert(reason_code_text(C::InvalidEnterMode)[0] != reason_code_text(C::ApiScopeRequired)[0]);
            assert(reason_code_text(C::InvalidEnterMode)[0] != reason_code_text(C::ApiClientUnbound)[0]);
        },
        C::UnsupportedProfile => {
            assert(reason_code_text(C::UnsupportedProfile).len() != reason_code_text(C::Busy).len());
            assert(reason_code_text(C::UnsupportedProfile).len() != reason_code_text(C::Expired).len());
            assert(reason_code_text(C::UnsupportedProfile).len() != reason_code_text(C::InvalidId).len());
            assert(reason_code_text(C::UnsupportedProfile).len() != reason_code_text(C::LeaseLost).len());
            assert(reason_code_text(C::UnsupportedProfile).len() != reason_code_text(C::UnsafePath).len());
            assert(reason_code_text(C::UnsupportedProfile).len() != reason_code_text(C::SessionRace).len());
            assert(reason_code_text(C::UnsupportedProfile).len() != reason_code_text(C::InvalidText).len());
            assert(reason_code_text(C::UnsupportedProfile).len() != reason_code_text(C::MixedPayload).len());
            assert(reason_code_text(C::UnsupportedProfile).len() != reason_code_text(C::InvalidNonce).len());
            assert(reason_code_text(C::UnsupportedProfile).len() != reason_code_text(C::StoreCorrupt).len());
            assert(reason_code_text(C::UnsupportedProfile).len() != reason_code_text(C::InvalidTarget).len());
            assert(reason_code_text(C::UnsupportedProfile).len() != reason_code_text(C::StoreTransient).len());
            assert(reason_code_text(C::UnsupportedProfile).len() != reason_code_text(C::ResizeUnsettled).len());
            assert(reason_code_text(C::UnsupportedProfile).len() != reason_code_text(C::ApiClientStale).len());
            assert(reason_code_text(C::UnsupportedProfile).len() != reason_code_text(C::InvalidEnvelope).len());
            assert(reason_code_text(C::UnsupportedProfile).len() != reason_code_text(C::CapacityExceeded).len());
            assert(reason_code_text(C::UnsupportedProfile).len() != reason_code_text(C::AuthorityChanged).len());
            assert(reason_code_text(C::UnsupportedProfile).len() != reason_code_text(C::TextWriteFailed).len());
            assert(reason_code_text(C::UnsupportedProfile).len() != reason_code_text(C::SpawnFailedSafe).len());
            assert(reason_code_text(C::UnsupportedProfile).len() != reason_code_text(C::PayloadTooLarge).len());
            assert(reason_code_text(C::UnsupportedProfile).len() != reason_code_text(C::InvalidTimestamp).len());
            assert(reason_code_text(C::UnsupportedProfile).len() != reason_code_text(C::TargetNotMember).len());
            assert(reason_code_text(C::UnsupportedProfile).len() != reason_code_text(C::PurgeInProgress).len());
            assert(reason_code_text(C::UnsupportedProfile).len() != reason_code_text(C::ReadinessTimeout).len());
            assert(reason_code_text(C::UnsupportedProfile).len() != reason_code_text(C::ArtifactUnclaimed).len());
            assert(reason_code_text(C::UnsupportedProfile).len() != reason_code_text(C::ApiScopeRequired).len());
            assert(reason_code_text(C::UnsupportedProfile).len() != reason_code_text(C::ApiClientUnbound).len());
            assert(reason_code_text(C::UnsupportedProfile).len() != reason_code_text(C::InvalidEnterMode).len());
        },
        C::TargetOutOfScope => {
            assert(reason_code_text(C::TargetOutOfScope).len() != reason_code_text(C::Busy).len());
            assert(reason_code_text(C::TargetOutOfScope).len() != reason_code_text(C::Expired).len());
            assert(reason_code_text(C::TargetOutOfScope).len() != reason_code_text(C::InvalidId).len());
            assert(reason_code_text(C::TargetOutOfScope).len() != reason_code_text(C::LeaseLost).len());
            assert(reason_code_text(C::TargetOutOfScope).len() != reason_code_text(C::UnsafePath).len());
            assert(reason_code_text(C::TargetOutOfScope).len() != reason_code_text(C::SessionRace).len());
            assert(reason_code_text(C::TargetOutOfScope).len() != reason_code_text(C::InvalidText).len());
            assert(reason_code_text(C::TargetOutOfScope).len() != reason_code_text(C::MixedPayload).len());
            assert(reason_code_text(C::TargetOutOfScope).len() != reason_code_text(C::InvalidNonce).len());
            assert(reason_code_text(C::TargetOutOfScope).len() != reason_code_text(C::StoreCorrupt).len());
            assert(reason_code_text(C::TargetOutOfScope).len() != reason_code_text(C::InvalidTarget).len());
            assert(reason_code_text(C::TargetOutOfScope).len() != reason_code_text(C::StoreTransient).len());
            assert(reason_code_text(C::TargetOutOfScope).len() != reason_code_text(C::ResizeUnsettled).len());
            assert(reason_code_text(C::TargetOutOfScope).len() != reason_code_text(C::ApiClientStale).len());
            assert(reason_code_text(C::TargetOutOfScope).len() != reason_code_text(C::InvalidEnvelope).len());
            assert(reason_code_text(C::TargetOutOfScope).len() != reason_code_text(C::CapacityExceeded).len());
            assert(reason_code_text(C::TargetOutOfScope).len() != reason_code_text(C::AuthorityChanged).len());
            assert(reason_code_text(C::TargetOutOfScope).len() != reason_code_text(C::TextWriteFailed).len());
            assert(reason_code_text(C::TargetOutOfScope).len() != reason_code_text(C::SpawnFailedSafe).len());
            assert(reason_code_text(C::TargetOutOfScope).len() != reason_code_text(C::PayloadTooLarge).len());
            assert(reason_code_text(C::TargetOutOfScope).len() != reason_code_text(C::InvalidTimestamp).len());
            assert(reason_code_text(C::TargetOutOfScope).len() != reason_code_text(C::TargetNotMember).len());
            assert(reason_code_text(C::TargetOutOfScope).len() != reason_code_text(C::PurgeInProgress).len());
            assert(reason_code_text(C::TargetOutOfScope).len() != reason_code_text(C::ReadinessTimeout).len());
            assert(reason_code_text(C::TargetOutOfScope).len() != reason_code_text(C::ArtifactUnclaimed).len());
            assert(reason_code_text(C::TargetOutOfScope).len() != reason_code_text(C::ApiScopeRequired).len());
            assert(reason_code_text(C::TargetOutOfScope).len() != reason_code_text(C::ApiClientUnbound).len());
            assert(reason_code_text(C::TargetOutOfScope).len() != reason_code_text(C::InvalidEnterMode).len());
            assert(reason_code_text(C::TargetOutOfScope)[0] != reason_code_text(C::UnsupportedProfile)[0]);
        },
        C::UnsupportedVersion => {
            assert(reason_code_text(C::UnsupportedVersion).len() != reason_code_text(C::Busy).len());
            assert(reason_code_text(C::UnsupportedVersion).len() != reason_code_text(C::Expired).len());
            assert(reason_code_text(C::UnsupportedVersion).len() != reason_code_text(C::InvalidId).len());
            assert(reason_code_text(C::UnsupportedVersion).len() != reason_code_text(C::LeaseLost).len());
            assert(reason_code_text(C::UnsupportedVersion).len() != reason_code_text(C::UnsafePath).len());
            assert(reason_code_text(C::UnsupportedVersion).len() != reason_code_text(C::SessionRace).len());
            assert(reason_code_text(C::UnsupportedVersion).len() != reason_code_text(C::InvalidText).len());
            assert(reason_code_text(C::UnsupportedVersion).len() != reason_code_text(C::MixedPayload).len());
            assert(reason_code_text(C::UnsupportedVersion).len() != reason_code_text(C::InvalidNonce).len());
            assert(reason_code_text(C::UnsupportedVersion).len() != reason_code_text(C::StoreCorrupt).len());
            assert(reason_code_text(C::UnsupportedVersion).len() != reason_code_text(C::InvalidTarget).len());
            assert(reason_code_text(C::UnsupportedVersion).len() != reason_code_text(C::StoreTransient).len());
            assert(reason_code_text(C::UnsupportedVersion).len() != reason_code_text(C::ResizeUnsettled).len());
            assert(reason_code_text(C::UnsupportedVersion).len() != reason_code_text(C::ApiClientStale).len());
            assert(reason_code_text(C::UnsupportedVersion).len() != reason_code_text(C::InvalidEnvelope).len());
            assert(reason_code_text(C::UnsupportedVersion).len() != reason_code_text(C::CapacityExceeded).len());
            assert(reason_code_text(C::UnsupportedVersion).len() != reason_code_text(C::AuthorityChanged).len());
            assert(reason_code_text(C::UnsupportedVersion).len() != reason_code_text(C::TextWriteFailed).len());
            assert(reason_code_text(C::UnsupportedVersion).len() != reason_code_text(C::SpawnFailedSafe).len());
            assert(reason_code_text(C::UnsupportedVersion).len() != reason_code_text(C::PayloadTooLarge).len());
            assert(reason_code_text(C::UnsupportedVersion).len() != reason_code_text(C::InvalidTimestamp).len());
            assert(reason_code_text(C::UnsupportedVersion).len() != reason_code_text(C::TargetNotMember).len());
            assert(reason_code_text(C::UnsupportedVersion).len() != reason_code_text(C::PurgeInProgress).len());
            assert(reason_code_text(C::UnsupportedVersion).len() != reason_code_text(C::ReadinessTimeout).len());
            assert(reason_code_text(C::UnsupportedVersion).len() != reason_code_text(C::ArtifactUnclaimed).len());
            assert(reason_code_text(C::UnsupportedVersion).len() != reason_code_text(C::ApiScopeRequired).len());
            assert(reason_code_text(C::UnsupportedVersion).len() != reason_code_text(C::ApiClientUnbound).len());
            assert(reason_code_text(C::UnsupportedVersion).len() != reason_code_text(C::InvalidEnterMode).len());
            assert(reason_code_text(C::UnsupportedVersion)[12] != reason_code_text(C::UnsupportedProfile)[12]);
            assert(reason_code_text(C::UnsupportedVersion)[0] != reason_code_text(C::TargetOutOfScope)[0]);
        },
        C::UnsupportedSession => {
            assert(reason_code_text(C::UnsupportedSession).len() != reason_code_text(C::Busy).len());
            assert(reason_code_text(C::UnsupportedSession).len() != reason_code_text(C::Expired).len());
            assert(reason_code_text(C::UnsupportedSession).len() != reason_code_text(C::InvalidId).len());
            assert(reason_code_text(C::UnsupportedSession).len() != reason_code_text(C::LeaseLost).len());
            assert(reason_code_text(C::UnsupportedSession).len() != reason_code_text(C::UnsafePath).len());
            assert(reason_code_text(C::UnsupportedSession).len() != reason_code_text(C::SessionRace).len());
            assert(reason_code_text(C::UnsupportedSession).len() != reason_code_text(C::InvalidText).len());
            assert(reason_code_text(C::UnsupportedSession).len() != reason_code_text(C::MixedPayload).len());
            assert(reason_code_text(C::UnsupportedSession).len() != reason_code_text(C::InvalidNonce).len());
            assert(reason_code_text(C::UnsupportedSession).len() != reason_code_text(C::StoreCorrupt).len());
            assert(reason_code_text(C::UnsupportedSession).len() != reason_code_text(C::InvalidTarget).len());
            assert(reason_code_text(C::UnsupportedSession).len() != reason_code_text(C::StoreTransient).len());
            assert(reason_code_text(C::UnsupportedSession).len() != reason_code_text(C::ResizeUnsettled).len());
            assert(reason_code_text(C::UnsupportedSession).len() != reason_code_text(C::ApiClientStale).len());
            assert(reason_code_text(C::UnsupportedSession).len() != reason_code_text(C::InvalidEnvelope).len());
            assert(reason_code_text(C::UnsupportedSession).len() != reason_code_text(C::CapacityExceeded).len());
            assert(reason_code_text(C::UnsupportedSession).len() != reason_code_text(C::AuthorityChanged).len());
            assert(reason_code_text(C::UnsupportedSession).len() != reason_code_text(C::TextWriteFailed).len());
            assert(reason_code_text(C::UnsupportedSession).len() != reason_code_text(C::SpawnFailedSafe).len());
            assert(reason_code_text(C::UnsupportedSession).len() != reason_code_text(C::PayloadTooLarge).len());
            assert(reason_code_text(C::UnsupportedSession).len() != reason_code_text(C::InvalidTimestamp).len());
            assert(reason_code_text(C::UnsupportedSession).len() != reason_code_text(C::TargetNotMember).len());
            assert(reason_code_text(C::UnsupportedSession).len() != reason_code_text(C::PurgeInProgress).len());
            assert(reason_code_text(C::UnsupportedSession).len() != reason_code_text(C::ReadinessTimeout).len());
            assert(reason_code_text(C::UnsupportedSession).len() != reason_code_text(C::ArtifactUnclaimed).len());
            assert(reason_code_text(C::UnsupportedSession).len() != reason_code_text(C::ApiScopeRequired).len());
            assert(reason_code_text(C::UnsupportedSession).len() != reason_code_text(C::ApiClientUnbound).len());
            assert(reason_code_text(C::UnsupportedSession).len() != reason_code_text(C::InvalidEnterMode).len());
            assert(reason_code_text(C::UnsupportedSession)[12] != reason_code_text(C::UnsupportedProfile)[12]);
            assert(reason_code_text(C::UnsupportedSession)[0] != reason_code_text(C::TargetOutOfScope)[0]);
            assert(reason_code_text(C::UnsupportedSession)[12] != reason_code_text(C::UnsupportedVersion)[12]);
        },
        C::UntrackedReadiness => {
            assert(reason_code_text(C::UntrackedReadiness).len() != reason_code_text(C::Busy).len());
            assert(reason_code_text(C::UntrackedReadiness).len() != reason_code_text(C::Expired).len());
            assert(reason_code_text(C::UntrackedReadiness).len() != reason_code_text(C::InvalidId).len());
            assert(reason_code_text(C::UntrackedReadiness).len() != reason_code_text(C::LeaseLost).len());
            assert(reason_code_text(C::UntrackedReadiness).len() != reason_code_text(C::UnsafePath).len());
            assert(reason_code_text(C::UntrackedReadiness).len() != reason_code_text(C::SessionRace).len());
            assert(reason_code_text(C::UntrackedReadiness).len() != reason_code_text(C::InvalidText).len());
            assert(reason_code_text(C::UntrackedReadiness).len() != reason_code_text(C::MixedPayload).len());
            assert(reason_code_text(C::UntrackedReadiness).len() != reason_code_text(C::InvalidNonce).len());
            assert(reason_code_text(C::UntrackedReadiness).len() != reason_code_text(C::StoreCorrupt).len());
            assert(reason_code_text(C::UntrackedReadiness).len() != reason_code_text(C::InvalidTarget).len());
            assert(reason_code_text(C::UntrackedReadiness).len() != reason_code_text(C::StoreTransient).len());
            assert(reason_code_text(C::UntrackedReadiness).len() != reason_code_text(C::ResizeUnsettled).len());
            assert(reason_code_text(C::UntrackedReadiness).len() != reason_code_text(C::ApiClientStale).len());
            assert(reason_code_text(C::UntrackedReadiness).len() != reason_code_text(C::InvalidEnvelope).len());
            assert(reason_code_text(C::UntrackedReadiness).len() != reason_code_text(C::CapacityExceeded).len());
            assert(reason_code_text(C::UntrackedReadiness).len() != reason_code_text(C::AuthorityChanged).len());
            assert(reason_code_text(C::UntrackedReadiness).len() != reason_code_text(C::TextWriteFailed).len());
            assert(reason_code_text(C::UntrackedReadiness).len() != reason_code_text(C::SpawnFailedSafe).len());
            assert(reason_code_text(C::UntrackedReadiness).len() != reason_code_text(C::PayloadTooLarge).len());
            assert(reason_code_text(C::UntrackedReadiness).len() != reason_code_text(C::InvalidTimestamp).len());
            assert(reason_code_text(C::UntrackedReadiness).len() != reason_code_text(C::TargetNotMember).len());
            assert(reason_code_text(C::UntrackedReadiness).len() != reason_code_text(C::PurgeInProgress).len());
            assert(reason_code_text(C::UntrackedReadiness).len() != reason_code_text(C::ReadinessTimeout).len());
            assert(reason_code_text(C::UntrackedReadiness).len() != reason_code_text(C::ArtifactUnclaimed).len());
            assert(reason_code_text(C::UntrackedReadiness).len() != reason_code_text(C::ApiScopeRequired).len());
            assert(reason_code_text(C::UntrackedReadiness).len() != reason_code_text(C::ApiClientUnbound).len());
            assert(reason_code_text(C::UntrackedReadiness).len() != reason_code_text(C::InvalidEnterMode).len());
            assert(reason_code_text(C::UntrackedReadiness)[2] != reason_code_text(C::UnsupportedProfile)[2]);
            assert(reason_code_text(C::UntrackedReadiness)[0] != reason_code_text(C::TargetOutOfScope)[0]);
            assert(reason_code_text(C::UntrackedReadiness)[2] != reason_code_text(C::UnsupportedVersion)[2]);
            assert(reason_code_text(C::UntrackedReadiness)[2] != reason_code_text(C::UnsupportedSession)[2]);
        },
        C::RestoreInProgress => {
            assert(reason_code_text(C::RestoreInProgress).len() != reason_code_text(C::Busy).len());
            assert(reason_code_text(C::RestoreInProgress).len() != reason_code_text(C::Expired).len());
            assert(reason_code_text(C::RestoreInProgress).len() != reason_code_text(C::InvalidId).len());
            assert(reason_code_text(C::RestoreInProgress).len() != reason_code_text(C::LeaseLost).len());
            assert(reason_code_text(C::RestoreInProgress).len() != reason_code_text(C::UnsafePath).len());
            assert(reason_code_text(C::RestoreInProgress).len() != reason_code_text(C::SessionRace).len());
            assert(reason_code_text(C::RestoreInProgress).len() != reason_code_text(C::InvalidText).len());
            assert(reason_code_text(C::RestoreInProgress).len() != reason_code_text(C::MixedPayload).len());
            assert(reason_code_text(C::RestoreInProgress).len() != reason_code_text(C::InvalidNonce).len());
            assert(reason_code_text(C::RestoreInProgress).len() != reason_code_text(C::StoreCorrupt).len());
            assert(reason_code_text(C::RestoreInProgress).len() != reason_code_text(C::InvalidTarget).len());
            assert(reason_code_text(C::RestoreInProgress).len() != reason_code_text(C::StoreTransient).len());
            assert(reason_code_text(C::RestoreInProgress).len() != reason_code_text(C::ResizeUnsettled).len());
            assert(reason_code_text(C::RestoreInProgress).len() != reason_code_text(C::ApiClientStale).len());
            assert(reason_code_text(C::RestoreInProgress).len() != reason_code_text(C::InvalidEnvelope).len());
            assert(reason_code_text(C::RestoreInProgress).len() != reason_code_text(C::CapacityExceeded).len());
            assert(reason_code_text(C::RestoreInProgress).len() != reason_code_text(C::AuthorityChanged).len());
            assert(reason_code_text(C::RestoreInProgress).len() != reason_code_text(C::TextWriteFailed).len());
            assert(reason_code_text(C::RestoreInProgress).len() != reason_code_text(C::SpawnFailedSafe).len());
            assert(reason_code_text(C::RestoreInProgress).len() != reason_code_text(C::PayloadTooLarge).len());
            assert(reason_code_text(C::RestoreInProgress).len() != reason_code_text(C::InvalidTimestamp).len());
            assert(reason_code_text(C::RestoreInProgress).len() != reason_code_text(C::TargetNotMember).len());
            assert(reason_code_text(C::RestoreInProgress).len() != reason_code_text(C::PurgeInProgress).len());
            assert(reason_code_text(C::RestoreInProgress).len() != reason_code_text(C::ReadinessTimeout).len());
            assert(reason_code_text(C::RestoreInProgress).len() != reason_code_text(C::ArtifactUnclaimed).len());
            assert(reason_code_text(C::RestoreInProgress).len() != reason_code_text(C::ApiScopeRequired).len());
            assert(reason_code_text(C::RestoreInProgress).len() != reason_code_text(C::ApiClientUnbound).len());
            assert(reason_code_text(C::RestoreInProgress).len() != reason_code_text(C::InvalidEnterMode).len());
            assert(reason_code_text(C::RestoreInProgress)[0] != reason_code_text(C::UnsupportedProfile)[0]);
            assert(reason_code_text(C::RestoreInProgress)[0] != reason_code_text(C::TargetOutOfScope)[0]);
            assert(reason_code_text(C::RestoreInProgress)[0] != reason_code_text(C::UnsupportedVersion)[0]);
            assert(reason_code_text(C::RestoreInProgress)[0] != reason_code_text(C::UnsupportedSession)[0]);
            assert(reason_code_text(C::RestoreInProgress)[0] != reason_code_text(C::UntrackedReadiness)[0]);
        },
        C::ApiBindingMismatch => {
            assert(reason_code_text(C::ApiBindingMismatch).len() != reason_code_text(C::Busy).len());
            assert(reason_code_text(C::ApiBindingMismatch).len() != reason_code_text(C::Expired).len());
            assert(reason_code_text(C::ApiBindingMismatch).len() != reason_code_text(C::InvalidId).len());
            assert(reason_code_text(C::ApiBindingMismatch).len() != reason_code_text(C::LeaseLost).len());
            assert(reason_code_text(C::ApiBindingMismatch).len() != reason_code_text(C::UnsafePath).len());
            assert(reason_code_text(C::ApiBindingMismatch).len() != reason_code_text(C::SessionRace).len());
            assert(reason_code_text(C::ApiBindingMismatch).len() != reason_code_text(C::InvalidText).len());
            assert(reason_code_text(C::ApiBindingMismatch).len() != reason_code_text(C::MixedPayload).len());
            assert(reason_code_text(C::ApiBindingMismatch).len() != reason_code_text(C::InvalidNonce).len());
            assert(reason_code_text(C::ApiBindingMismatch).len() != reason_code_text(C::StoreCorrupt).len());
            assert(reason_code_text(C::ApiBindingMismatch).len() != reason_code_text(C::InvalidTarget).len());
            assert(reason_code_text(C::ApiBindingMismatch).len() != reason_code_text(C::StoreTransient).len());
            assert(reason_code_text(C::ApiBindingMismatch).len() != reason_code_text(C::ResizeUnsettled).len());
            assert(reason_code_text(C::ApiBindingMismatch).len() != reason_code_text(C::ApiClientStale).len());
            assert(reason_code_text(C::ApiBindingMismatch).len() != reason_code_text(C::InvalidEnvelope).len());
            assert(reason_code_text(C::ApiBindingMismatch).len() != reason_code_text(C::CapacityExceeded).len());
            assert(reason_code_text(C::ApiBindingMismatch).len() != reason_code_text(C::AuthorityChanged).len());
            assert(reason_code_text(C::ApiBindingMismatch).len() != reason_code_text(C::TextWriteFailed).len());
            assert(reason_code_text(C::ApiBindingMismatch).len() != reason_code_text(C::SpawnFailedSafe).len());
            assert(reason_code_text(C::ApiBindingMismatch).len() != reason_code_text(C::PayloadTooLarge).len());
            assert(reason_code_text(C::ApiBindingMismatch).len() != reason_code_text(C::InvalidTimestamp).len());
            assert(reason_code_text(C::ApiBindingMismatch).len() != reason_code_text(C::TargetNotMember).len());
            assert(reason_code_text(C::ApiBindingMismatch).len() != reason_code_text(C::PurgeInProgress).len());
            assert(reason_code_text(C::ApiBindingMismatch).len() != reason_code_text(C::ReadinessTimeout).len());
            assert(reason_code_text(C::ApiBindingMismatch).len() != reason_code_text(C::ArtifactUnclaimed).len());
            assert(reason_code_text(C::ApiBindingMismatch).len() != reason_code_text(C::ApiScopeRequired).len());
            assert(reason_code_text(C::ApiBindingMismatch).len() != reason_code_text(C::ApiClientUnbound).len());
            assert(reason_code_text(C::ApiBindingMismatch).len() != reason_code_text(C::InvalidEnterMode).len());
            assert(reason_code_text(C::ApiBindingMismatch).len() != reason_code_text(C::UnsupportedProfile).len());
            assert(reason_code_text(C::ApiBindingMismatch).len() != reason_code_text(C::TargetOutOfScope).len());
            assert(reason_code_text(C::ApiBindingMismatch).len() != reason_code_text(C::UnsupportedVersion).len());
            assert(reason_code_text(C::ApiBindingMismatch).len() != reason_code_text(C::UnsupportedSession).len());
            assert(reason_code_text(C::ApiBindingMismatch).len() != reason_code_text(C::UntrackedReadiness).len());
            assert(reason_code_text(C::ApiBindingMismatch).len() != reason_code_text(C::RestoreInProgress).len());
        },
        C::InconsistentSession => {
            assert(reason_code_text(C::InconsistentSession).len() != reason_code_text(C::Busy).len());
            assert(reason_code_text(C::InconsistentSession).len() != reason_code_text(C::Expired).len());
            assert(reason_code_text(C::InconsistentSession).len() != reason_code_text(C::InvalidId).len());
            assert(reason_code_text(C::InconsistentSession).len() != reason_code_text(C::LeaseLost).len());
            assert(reason_code_text(C::InconsistentSession).len() != reason_code_text(C::UnsafePath).len());
            assert(reason_code_text(C::InconsistentSession).len() != reason_code_text(C::SessionRace).len());
            assert(reason_code_text(C::InconsistentSession).len() != reason_code_text(C::InvalidText).len());
            assert(reason_code_text(C::InconsistentSession).len() != reason_code_text(C::MixedPayload).len());
            assert(reason_code_text(C::InconsistentSession).len() != reason_code_text(C::InvalidNonce).len());
            assert(reason_code_text(C::InconsistentSession).len() != reason_code_text(C::StoreCorrupt).len());
            assert(reason_code_text(C::InconsistentSession).len() != reason_code_text(C::InvalidTarget).len());
            assert(reason_code_text(C::InconsistentSession).len() != reason_code_text(C::StoreTransient).len());
            assert(reason_code_text(C::InconsistentSession).len() != reason_code_text(C::ResizeUnsettled).len());
            assert(reason_code_text(C::InconsistentSession).len() != reason_code_text(C::ApiClientStale).len());
            assert(reason_code_text(C::InconsistentSession).len() != reason_code_text(C::InvalidEnvelope).len());
            assert(reason_code_text(C::InconsistentSession).len() != reason_code_text(C::CapacityExceeded).len());
            assert(reason_code_text(C::InconsistentSession).len() != reason_code_text(C::AuthorityChanged).len());
            assert(reason_code_text(C::InconsistentSession).len() != reason_code_text(C::TextWriteFailed).len());
            assert(reason_code_text(C::InconsistentSession).len() != reason_code_text(C::SpawnFailedSafe).len());
            assert(reason_code_text(C::InconsistentSession).len() != reason_code_text(C::PayloadTooLarge).len());
            assert(reason_code_text(C::InconsistentSession).len() != reason_code_text(C::InvalidTimestamp).len());
            assert(reason_code_text(C::InconsistentSession).len() != reason_code_text(C::TargetNotMember).len());
            assert(reason_code_text(C::InconsistentSession).len() != reason_code_text(C::PurgeInProgress).len());
            assert(reason_code_text(C::InconsistentSession).len() != reason_code_text(C::ReadinessTimeout).len());
            assert(reason_code_text(C::InconsistentSession).len() != reason_code_text(C::ArtifactUnclaimed).len());
            assert(reason_code_text(C::InconsistentSession).len() != reason_code_text(C::ApiScopeRequired).len());
            assert(reason_code_text(C::InconsistentSession).len() != reason_code_text(C::ApiClientUnbound).len());
            assert(reason_code_text(C::InconsistentSession).len() != reason_code_text(C::InvalidEnterMode).len());
            assert(reason_code_text(C::InconsistentSession).len() != reason_code_text(C::UnsupportedProfile).len());
            assert(reason_code_text(C::InconsistentSession).len() != reason_code_text(C::TargetOutOfScope).len());
            assert(reason_code_text(C::InconsistentSession).len() != reason_code_text(C::UnsupportedVersion).len());
            assert(reason_code_text(C::InconsistentSession).len() != reason_code_text(C::UnsupportedSession).len());
            assert(reason_code_text(C::InconsistentSession).len() != reason_code_text(C::UntrackedReadiness).len());
            assert(reason_code_text(C::InconsistentSession).len() != reason_code_text(C::RestoreInProgress).len());
            assert(reason_code_text(C::InconsistentSession)[0] != reason_code_text(C::ApiBindingMismatch)[0]);
        },
        C::IdempotencyConflict => {
            assert(reason_code_text(C::IdempotencyConflict).len() != reason_code_text(C::Busy).len());
            assert(reason_code_text(C::IdempotencyConflict).len() != reason_code_text(C::Expired).len());
            assert(reason_code_text(C::IdempotencyConflict).len() != reason_code_text(C::InvalidId).len());
            assert(reason_code_text(C::IdempotencyConflict).len() != reason_code_text(C::LeaseLost).len());
            assert(reason_code_text(C::IdempotencyConflict).len() != reason_code_text(C::UnsafePath).len());
            assert(reason_code_text(C::IdempotencyConflict).len() != reason_code_text(C::SessionRace).len());
            assert(reason_code_text(C::IdempotencyConflict).len() != reason_code_text(C::InvalidText).len());
            assert(reason_code_text(C::IdempotencyConflict).len() != reason_code_text(C::MixedPayload).len());
            assert(reason_code_text(C::IdempotencyConflict).len() != reason_code_text(C::InvalidNonce).len());
            assert(reason_code_text(C::IdempotencyConflict).len() != reason_code_text(C::StoreCorrupt).len());
            assert(reason_code_text(C::IdempotencyConflict).len() != reason_code_text(C::InvalidTarget).len());
            assert(reason_code_text(C::IdempotencyConflict).len() != reason_code_text(C::StoreTransient).len());
            assert(reason_code_text(C::IdempotencyConflict).len() != reason_code_text(C::ResizeUnsettled).len());
            assert(reason_code_text(C::IdempotencyConflict).len() != reason_code_text(C::ApiClientStale).len());
            assert(reason_code_text(C::IdempotencyConflict).len() != reason_code_text(C::InvalidEnvelope).len());
            assert(reason_code_text(C::IdempotencyConflict).len() != reason_code_text(C::CapacityExceeded).len());
            assert(reason_code_text(C::IdempotencyConflict).len() != reason_code_text(C::AuthorityChanged).len());
            assert(reason_code_text(C::IdempotencyConflict).len() != reason_code_text(C::TextWriteFailed).len());
            assert(reason_code_text(C::IdempotencyConflict).len() != reason_code_text(C::SpawnFailedSafe).len());
            assert(reason_code_text(C::IdempotencyConflict).len() != reason_code_text(C::PayloadTooLarge).len());
            assert(reason_code_text(C::IdempotencyConflict).len() != reason_code_text(C::InvalidTimestamp).len());
            assert(reason_code_text(C::IdempotencyConflict).len() != reason_code_text(C::TargetNotMember).len());
            assert(reason_code_text(C::IdempotencyConflict).len() != reason_code_text(C::PurgeInProgress).len());
            assert(reason_code_text(C::IdempotencyConflict).len() != reason_code_text(C::ReadinessTimeout).len());
            assert(reason_code_text(C::IdempotencyConflict).len() != reason_code_text(C::ArtifactUnclaimed).len());
            assert(reason_code_text(C::IdempotencyConflict).len() != reason_code_text(C::ApiScopeRequired).len());
            assert(reason_code_text(C::IdempotencyConflict).len() != reason_code_text(C::ApiClientUnbound).len());
            assert(reason_code_text(C::IdempotencyConflict).len() != reason_code_text(C::InvalidEnterMode).len());
            assert(reason_code_text(C::IdempotencyConflict).len() != reason_code_text(C::UnsupportedProfile).len());
            assert(reason_code_text(C::IdempotencyConflict).len() != reason_code_text(C::TargetOutOfScope).len());
            assert(reason_code_text(C::IdempotencyConflict).len() != reason_code_text(C::UnsupportedVersion).len());
            assert(reason_code_text(C::IdempotencyConflict).len() != reason_code_text(C::UnsupportedSession).len());
            assert(reason_code_text(C::IdempotencyConflict).len() != reason_code_text(C::UntrackedReadiness).len());
            assert(reason_code_text(C::IdempotencyConflict).len() != reason_code_text(C::RestoreInProgress).len());
            assert(reason_code_text(C::IdempotencyConflict)[0] != reason_code_text(C::ApiBindingMismatch)[0]);
            assert(reason_code_text(C::IdempotencyConflict)[1] != reason_code_text(C::InconsistentSession)[1]);
        },
        C::TerminalStoreFailed => {
            assert(reason_code_text(C::TerminalStoreFailed).len() != reason_code_text(C::Busy).len());
            assert(reason_code_text(C::TerminalStoreFailed).len() != reason_code_text(C::Expired).len());
            assert(reason_code_text(C::TerminalStoreFailed).len() != reason_code_text(C::InvalidId).len());
            assert(reason_code_text(C::TerminalStoreFailed).len() != reason_code_text(C::LeaseLost).len());
            assert(reason_code_text(C::TerminalStoreFailed).len() != reason_code_text(C::UnsafePath).len());
            assert(reason_code_text(C::TerminalStoreFailed).len() != reason_code_text(C::SessionRace).len());
            assert(reason_code_text(C::TerminalStoreFailed).len() != reason_code_text(C::InvalidText).len());
            assert(reason_code_text(C::TerminalStoreFailed).len() != reason_code_text(C::MixedPayload).len());
            assert(reason_code_text(C::TerminalStoreFailed).len() != reason_code_text(C::InvalidNonce).len());
            assert(reason_code_text(C::TerminalStoreFailed).len() != reason_code_text(C::StoreCorrupt).len());
            assert(reason_code_text(C::TerminalStoreFailed).len() != reason_code_text(C::InvalidTarget).len());
            assert(reason_code_text(C::TerminalStoreFailed).len() != reason_code_text(C::StoreTransient).len());
            assert(reason_code_text(C::TerminalStoreFailed).len() != reason_code_text(C::ResizeUnsettled).len());
            assert(reason_code_text(C::TerminalStoreFailed).len() != reason_code_text(C::ApiClientStale).len());
            assert(reason_code_text(C::TerminalStoreFailed).len() != reason_code_text(C::InvalidEnvelope).len());
            assert(reason_code_text(C::TerminalStoreFailed).len() != reason_code_text(C::CapacityExceeded).len());
            assert(reason_code_text(C::TerminalStoreFailed).len() != reason_code_text(C::AuthorityChanged).len());
            assert(reason_code_text(C::TerminalStoreFailed).len() != reason_code_text(C::TextWriteFailed).len());
            assert(reason_code_text(C::TerminalStoreFailed).len() != reason_code_text(C::SpawnFailedSafe).len());
            assert(reason_code_text(C::TerminalStoreFailed).len() != reason_code_text(C::PayloadTooLarge).len());
            assert(reason_code_text(C::TerminalStoreFailed).len() != reason_code_text(C::InvalidTimestamp).len());
            assert(reason_code_text(C::TerminalStoreFailed).len() != reason_code_text(C::TargetNotMember).len());
            assert(reason_code_text(C::TerminalStoreFailed).len() != reason_code_text(C::PurgeInProgress).len());
            assert(reason_code_text(C::TerminalStoreFailed).len() != reason_code_text(C::ReadinessTimeout).len());
            assert(reason_code_text(C::TerminalStoreFailed).len() != reason_code_text(C::ArtifactUnclaimed).len());
            assert(reason_code_text(C::TerminalStoreFailed).len() != reason_code_text(C::ApiScopeRequired).len());
            assert(reason_code_text(C::TerminalStoreFailed).len() != reason_code_text(C::ApiClientUnbound).len());
            assert(reason_code_text(C::TerminalStoreFailed).len() != reason_code_text(C::InvalidEnterMode).len());
            assert(reason_code_text(C::TerminalStoreFailed).len() != reason_code_text(C::UnsupportedProfile).len());
            assert(reason_code_text(C::TerminalStoreFailed).len() != reason_code_text(C::TargetOutOfScope).len());
            assert(reason_code_text(C::TerminalStoreFailed).len() != reason_code_text(C::UnsupportedVersion).len());
            assert(reason_code_text(C::TerminalStoreFailed).len() != reason_code_text(C::UnsupportedSession).len());
            assert(reason_code_text(C::TerminalStoreFailed).len() != reason_code_text(C::UntrackedReadiness).len());
            assert(reason_code_text(C::TerminalStoreFailed).len() != reason_code_text(C::RestoreInProgress).len());
            assert(reason_code_text(C::TerminalStoreFailed).len() != reason_code_text(C::ApiBindingMismatch).len());
            assert(reason_code_text(C::TerminalStoreFailed).len() != reason_code_text(C::InconsistentSession).len());
            assert(reason_code_text(C::TerminalStoreFailed).len() != reason_code_text(C::IdempotencyConflict).len());
        },
        C::RequiredEnterFailed => {
            assert(reason_code_text(C::RequiredEnterFailed).len() != reason_code_text(C::Busy).len());
            assert(reason_code_text(C::RequiredEnterFailed).len() != reason_code_text(C::Expired).len());
            assert(reason_code_text(C::RequiredEnterFailed).len() != reason_code_text(C::InvalidId).len());
            assert(reason_code_text(C::RequiredEnterFailed).len() != reason_code_text(C::LeaseLost).len());
            assert(reason_code_text(C::RequiredEnterFailed).len() != reason_code_text(C::UnsafePath).len());
            assert(reason_code_text(C::RequiredEnterFailed).len() != reason_code_text(C::SessionRace).len());
            assert(reason_code_text(C::RequiredEnterFailed).len() != reason_code_text(C::InvalidText).len());
            assert(reason_code_text(C::RequiredEnterFailed).len() != reason_code_text(C::MixedPayload).len());
            assert(reason_code_text(C::RequiredEnterFailed).len() != reason_code_text(C::InvalidNonce).len());
            assert(reason_code_text(C::RequiredEnterFailed).len() != reason_code_text(C::StoreCorrupt).len());
            assert(reason_code_text(C::RequiredEnterFailed).len() != reason_code_text(C::InvalidTarget).len());
            assert(reason_code_text(C::RequiredEnterFailed).len() != reason_code_text(C::StoreTransient).len());
            assert(reason_code_text(C::RequiredEnterFailed).len() != reason_code_text(C::ResizeUnsettled).len());
            assert(reason_code_text(C::RequiredEnterFailed).len() != reason_code_text(C::ApiClientStale).len());
            assert(reason_code_text(C::RequiredEnterFailed).len() != reason_code_text(C::InvalidEnvelope).len());
            assert(reason_code_text(C::RequiredEnterFailed).len() != reason_code_text(C::CapacityExceeded).len());
            assert(reason_code_text(C::RequiredEnterFailed).len() != reason_code_text(C::AuthorityChanged).len());
            assert(reason_code_text(C::RequiredEnterFailed).len() != reason_code_text(C::TextWriteFailed).len());
            assert(reason_code_text(C::RequiredEnterFailed).len() != reason_code_text(C::SpawnFailedSafe).len());
            assert(reason_code_text(C::RequiredEnterFailed).len() != reason_code_text(C::PayloadTooLarge).len());
            assert(reason_code_text(C::RequiredEnterFailed).len() != reason_code_text(C::InvalidTimestamp).len());
            assert(reason_code_text(C::RequiredEnterFailed).len() != reason_code_text(C::TargetNotMember).len());
            assert(reason_code_text(C::RequiredEnterFailed).len() != reason_code_text(C::PurgeInProgress).len());
            assert(reason_code_text(C::RequiredEnterFailed).len() != reason_code_text(C::ReadinessTimeout).len());
            assert(reason_code_text(C::RequiredEnterFailed).len() != reason_code_text(C::ArtifactUnclaimed).len());
            assert(reason_code_text(C::RequiredEnterFailed).len() != reason_code_text(C::ApiScopeRequired).len());
            assert(reason_code_text(C::RequiredEnterFailed).len() != reason_code_text(C::ApiClientUnbound).len());
            assert(reason_code_text(C::RequiredEnterFailed).len() != reason_code_text(C::InvalidEnterMode).len());
            assert(reason_code_text(C::RequiredEnterFailed).len() != reason_code_text(C::UnsupportedProfile).len());
            assert(reason_code_text(C::RequiredEnterFailed).len() != reason_code_text(C::TargetOutOfScope).len());
            assert(reason_code_text(C::RequiredEnterFailed).len() != reason_code_text(C::UnsupportedVersion).len());
            assert(reason_code_text(C::RequiredEnterFailed).len() != reason_code_text(C::UnsupportedSession).len());
            assert(reason_code_text(C::RequiredEnterFailed).len() != reason_code_text(C::UntrackedReadiness).len());
            assert(reason_code_text(C::RequiredEnterFailed).len() != reason_code_text(C::RestoreInProgress).len());
            assert(reason_code_text(C::RequiredEnterFailed).len() != reason_code_text(C::ApiBindingMismatch).len());
            assert(reason_code_text(C::RequiredEnterFailed).len() != reason_code_text(C::InconsistentSession).len());
            assert(reason_code_text(C::RequiredEnterFailed).len() != reason_code_text(C::IdempotencyConflict).len());
            assert(reason_code_text(C::RequiredEnterFailed)[0] != reason_code_text(C::TerminalStoreFailed)[0]);
        },
        C::RootIdentityInvalid => {
            assert(reason_code_text(C::RootIdentityInvalid).len() != reason_code_text(C::Busy).len());
            assert(reason_code_text(C::RootIdentityInvalid).len() != reason_code_text(C::Expired).len());
            assert(reason_code_text(C::RootIdentityInvalid).len() != reason_code_text(C::InvalidId).len());
            assert(reason_code_text(C::RootIdentityInvalid).len() != reason_code_text(C::LeaseLost).len());
            assert(reason_code_text(C::RootIdentityInvalid).len() != reason_code_text(C::UnsafePath).len());
            assert(reason_code_text(C::RootIdentityInvalid).len() != reason_code_text(C::SessionRace).len());
            assert(reason_code_text(C::RootIdentityInvalid).len() != reason_code_text(C::InvalidText).len());
            assert(reason_code_text(C::RootIdentityInvalid).len() != reason_code_text(C::MixedPayload).len());
            assert(reason_code_text(C::RootIdentityInvalid).len() != reason_code_text(C::InvalidNonce).len());
            assert(reason_code_text(C::RootIdentityInvalid).len() != reason_code_text(C::StoreCorrupt).len());
            assert(reason_code_text(C::RootIdentityInvalid).len() != reason_code_text(C::InvalidTarget).len());
            assert(reason_code_text(C::RootIdentityInvalid).len() != reason_code_text(C::StoreTransient).len());
            assert(reason_code_text(C::RootIdentityInvalid).len() != reason_code_text(C::ResizeUnsettled).len());
            assert(reason_code_text(C::RootIdentityInvalid).len() != reason_code_text(C::ApiClientStale).len());
            assert(reason_code_text(C::RootIdentityInvalid).len() != reason_code_text(C::InvalidEnvelope).len());
            assert(reason_code_text(C::RootIdentityInvalid).len() != reason_code_text(C::CapacityExceeded).len());
            assert(reason_code_text(C::RootIdentityInvalid).len() != reason_code_text(C::AuthorityChanged).len());
            assert(reason_code_text(C::RootIdentityInvalid).len() != reason_code_text(C::TextWriteFailed).len());
            assert(reason_code_text(C::RootIdentityInvalid).len() != reason_code_text(C::SpawnFailedSafe).len());
            assert(reason_code_text(C::RootIdentityInvalid).len() != reason_code_text(C::PayloadTooLarge).len());
            assert(reason_code_text(C::RootIdentityInvalid).len() != reason_code_text(C::InvalidTimestamp).len());
            assert(reason_code_text(C::RootIdentityInvalid).len() != reason_code_text(C::TargetNotMember).len());
            assert(reason_code_text(C::RootIdentityInvalid).len() != reason_code_text(C::PurgeInProgress).len());
            assert(reason_code_text(C::RootIdentityInvalid).len() != reason_code_text(C::ReadinessTimeout).len());
            assert(reason_code_text(C::RootIdentityInvalid).len() != reason_code_text(C::ArtifactUnclaimed).len());
            assert(reason_code_text(C::RootIdentityInvalid).len() != reason_code_text(C::ApiScopeRequired).len());
            assert(reason_code_text(C::RootIdentityInvalid).len() != reason_code_text(C::ApiClientUnbound).len());
            assert(reason_code_text(C::RootIdentityInvalid).len() != reason_code_text(C::InvalidEnterMode).len());
            assert(reason_code_text(C::RootIdentityInvalid).len() != reason_code_text(C::UnsupportedProfile).len());
            assert(reason_code_text(C::RootIdentityInvalid).len() != reason_code_text(C::TargetOutOfScope).len());
            assert(reason_code_text(C::RootIdentityInvalid).len() != reason_code_text(C::UnsupportedVersion).len());
            assert(reason_code_text(C::RootIdentityInvalid).len() != reason_code_text(C::UnsupportedSession).len());
            assert(reason_code_text(C::RootIdentityInvalid).len() != reason_code_text(C::UntrackedReadiness).len());
            assert(reason_code_text(C::RootIdentityInvalid).len() != reason_code_text(C::RestoreInProgress).len());
            assert(reason_code_text(C::RootIdentityInvalid).len() != reason_code_text(C::ApiBindingMismatch).len());
            assert(reason_code_text(C::RootIdentityInvalid).len() != reason_code_text(C::InconsistentSession).len());
            assert(reason_code_text(C::RootIdentityInvalid).len() != reason_code_text(C::IdempotencyConflict).len());
            assert(reason_code_text(C::RootIdentityInvalid)[0] != reason_code_text(C::TerminalStoreFailed)[0]);
            assert(reason_code_text(C::RootIdentityInvalid)[1] != reason_code_text(C::RequiredEnterFailed)[1]);
        },
        C::InvalidSessionToken => {
            assert(reason_code_text(C::InvalidSessionToken).len() != reason_code_text(C::Busy).len());
            assert(reason_code_text(C::InvalidSessionToken).len() != reason_code_text(C::Expired).len());
            assert(reason_code_text(C::InvalidSessionToken).len() != reason_code_text(C::InvalidId).len());
            assert(reason_code_text(C::InvalidSessionToken).len() != reason_code_text(C::LeaseLost).len());
            assert(reason_code_text(C::InvalidSessionToken).len() != reason_code_text(C::UnsafePath).len());
            assert(reason_code_text(C::InvalidSessionToken).len() != reason_code_text(C::SessionRace).len());
            assert(reason_code_text(C::InvalidSessionToken).len() != reason_code_text(C::InvalidText).len());
            assert(reason_code_text(C::InvalidSessionToken).len() != reason_code_text(C::MixedPayload).len());
            assert(reason_code_text(C::InvalidSessionToken).len() != reason_code_text(C::InvalidNonce).len());
            assert(reason_code_text(C::InvalidSessionToken).len() != reason_code_text(C::StoreCorrupt).len());
            assert(reason_code_text(C::InvalidSessionToken).len() != reason_code_text(C::InvalidTarget).len());
            assert(reason_code_text(C::InvalidSessionToken).len() != reason_code_text(C::StoreTransient).len());
            assert(reason_code_text(C::InvalidSessionToken).len() != reason_code_text(C::ResizeUnsettled).len());
            assert(reason_code_text(C::InvalidSessionToken).len() != reason_code_text(C::ApiClientStale).len());
            assert(reason_code_text(C::InvalidSessionToken).len() != reason_code_text(C::InvalidEnvelope).len());
            assert(reason_code_text(C::InvalidSessionToken).len() != reason_code_text(C::CapacityExceeded).len());
            assert(reason_code_text(C::InvalidSessionToken).len() != reason_code_text(C::AuthorityChanged).len());
            assert(reason_code_text(C::InvalidSessionToken).len() != reason_code_text(C::TextWriteFailed).len());
            assert(reason_code_text(C::InvalidSessionToken).len() != reason_code_text(C::SpawnFailedSafe).len());
            assert(reason_code_text(C::InvalidSessionToken).len() != reason_code_text(C::PayloadTooLarge).len());
            assert(reason_code_text(C::InvalidSessionToken).len() != reason_code_text(C::InvalidTimestamp).len());
            assert(reason_code_text(C::InvalidSessionToken).len() != reason_code_text(C::TargetNotMember).len());
            assert(reason_code_text(C::InvalidSessionToken).len() != reason_code_text(C::PurgeInProgress).len());
            assert(reason_code_text(C::InvalidSessionToken).len() != reason_code_text(C::ReadinessTimeout).len());
            assert(reason_code_text(C::InvalidSessionToken).len() != reason_code_text(C::ArtifactUnclaimed).len());
            assert(reason_code_text(C::InvalidSessionToken).len() != reason_code_text(C::ApiScopeRequired).len());
            assert(reason_code_text(C::InvalidSessionToken).len() != reason_code_text(C::ApiClientUnbound).len());
            assert(reason_code_text(C::InvalidSessionToken).len() != reason_code_text(C::InvalidEnterMode).len());
            assert(reason_code_text(C::InvalidSessionToken).len() != reason_code_text(C::UnsupportedProfile).len());
            assert(reason_code_text(C::InvalidSessionToken).len() != reason_code_text(C::TargetOutOfScope).len());
            assert(reason_code_text(C::InvalidSessionToken).len() != reason_code_text(C::UnsupportedVersion).len());
            assert(reason_code_text(C::InvalidSessionToken).len() != reason_code_text(C::UnsupportedSession).len());
            assert(reason_code_text(C::InvalidSessionToken).len() != reason_code_text(C::UntrackedReadiness).len());
            assert(reason_code_text(C::InvalidSessionToken).len() != reason_code_text(C::RestoreInProgress).len());
            assert(reason_code_text(C::InvalidSessionToken).len() != reason_code_text(C::ApiBindingMismatch).len());
            assert(reason_code_text(C::InvalidSessionToken).len() != reason_code_text(C::InconsistentSession).len());
            assert(reason_code_text(C::InvalidSessionToken).len() != reason_code_text(C::IdempotencyConflict).len());
            assert(reason_code_text(C::InvalidSessionToken)[0] != reason_code_text(C::TerminalStoreFailed)[0]);
            assert(reason_code_text(C::InvalidSessionToken)[0] != reason_code_text(C::RequiredEnterFailed)[0]);
            assert(reason_code_text(C::InvalidSessionToken)[0] != reason_code_text(C::RootIdentityInvalid)[0]);
        },
        C::TargetIsCoordinator => {
            assert(reason_code_text(C::TargetIsCoordinator).len() != reason_code_text(C::Busy).len());
            assert(reason_code_text(C::TargetIsCoordinator).len() != reason_code_text(C::Expired).len());
            assert(reason_code_text(C::TargetIsCoordinator).len() != reason_code_text(C::InvalidId).len());
            assert(reason_code_text(C::TargetIsCoordinator).len() != reason_code_text(C::LeaseLost).len());
            assert(reason_code_text(C::TargetIsCoordinator).len() != reason_code_text(C::UnsafePath).len());
            assert(reason_code_text(C::TargetIsCoordinator).len() != reason_code_text(C::SessionRace).len());
            assert(reason_code_text(C::TargetIsCoordinator).len() != reason_code_text(C::InvalidText).len());
            assert(reason_code_text(C::TargetIsCoordinator).len() != reason_code_text(C::MixedPayload).len());
            assert(reason_code_text(C::TargetIsCoordinator).len() != reason_code_text(C::InvalidNonce).len());
            assert(reason_code_text(C::TargetIsCoordinator).len() != reason_code_text(C::StoreCorrupt).len());
            assert(reason_code_text(C::TargetIsCoordinator).len() != reason_code_text(C::InvalidTarget).len());
            assert(reason_code_text(C::TargetIsCoordinator).len() != reason_code_text(C::StoreTransient).len());
            assert(reason_code_text(C::TargetIsCoordinator).len() != reason_code_text(C::ResizeUnsettled).len());
            assert(reason_code_text(C::TargetIsCoordinator).len() != reason_code_text(C::ApiClientStale).len());
            assert(reason_code_text(C::TargetIsCoordinator).len() != reason_code_text(C::InvalidEnvelope).len());
            assert(reason_code_text(C::TargetIsCoordinator).len() != reason_code_text(C::CapacityExceeded).len());
            assert(reason_code_text(C::TargetIsCoordinator).len() != reason_code_text(C::AuthorityChanged).len());
            assert(reason_code_text(C::TargetIsCoordinator).len() != reason_code_text(C::TextWriteFailed).len());
            assert(reason_code_text(C::TargetIsCoordinator).len() != reason_code_text(C::SpawnFailedSafe).len());
            assert(reason_code_text(C::TargetIsCoordinator).len() != reason_code_text(C::PayloadTooLarge).len());
            assert(reason_code_text(C::TargetIsCoordinator).len() != reason_code_text(C::InvalidTimestamp).len());
            assert(reason_code_text(C::TargetIsCoordinator).len() != reason_code_text(C::TargetNotMember).len());
            assert(reason_code_text(C::TargetIsCoordinator).len() != reason_code_text(C::PurgeInProgress).len());
            assert(reason_code_text(C::TargetIsCoordinator).len() != reason_code_text(C::ReadinessTimeout).len());
            assert(reason_code_text(C::TargetIsCoordinator).len() != reason_code_text(C::ArtifactUnclaimed).len());
            assert(reason_code_text(C::TargetIsCoordinator).len() != reason_code_text(C::ApiScopeRequired).len());
            assert(reason_code_text(C::TargetIsCoordinator).len() != reason_code_text(C::ApiClientUnbound).len());
            assert(reason_code_text(C::TargetIsCoordinator).len() != reason_code_text(C::InvalidEnterMode).len());
            assert(reason_code_text(C::TargetIsCoordinator).len() != reason_code_text(C::UnsupportedProfile).len());
            assert(reason_code_text(C::TargetIsCoordinator).len() != reason_code_text(C::TargetOutOfScope).len());
            assert(reason_code_text(C::TargetIsCoordinator).len() != reason_code_text(C::UnsupportedVersion).len());
            assert(reason_code_text(C::TargetIsCoordinator).len() != reason_code_text(C::UnsupportedSession).len());
            assert(reason_code_text(C::TargetIsCoordinator).len() != reason_code_text(C::UntrackedReadiness).len());
            assert(reason_code_text(C::TargetIsCoordinator).len() != reason_code_text(C::RestoreInProgress).len());
            assert(reason_code_text(C::TargetIsCoordinator).len() != reason_code_text(C::ApiBindingMismatch).len());
            assert(reason_code_text(C::TargetIsCoordinator).len() != reason_code_text(C::InconsistentSession).len());
            assert(reason_code_text(C::TargetIsCoordinator).len() != reason_code_text(C::IdempotencyConflict).len());
            assert(reason_code_text(C::TargetIsCoordinator)[1] != reason_code_text(C::TerminalStoreFailed)[1]);
            assert(reason_code_text(C::TargetIsCoordinator)[0] != reason_code_text(C::RequiredEnterFailed)[0]);
            assert(reason_code_text(C::TargetIsCoordinator)[0] != reason_code_text(C::RootIdentityInvalid)[0]);
            assert(reason_code_text(C::TargetIsCoordinator)[0] != reason_code_text(C::InvalidSessionToken)[0]);
        },
        C::RedundantEnterFailed => {
            assert(reason_code_text(C::RedundantEnterFailed).len() != reason_code_text(C::Busy).len());
            assert(reason_code_text(C::RedundantEnterFailed).len() != reason_code_text(C::Expired).len());
            assert(reason_code_text(C::RedundantEnterFailed).len() != reason_code_text(C::InvalidId).len());
            assert(reason_code_text(C::RedundantEnterFailed).len() != reason_code_text(C::LeaseLost).len());
            assert(reason_code_text(C::RedundantEnterFailed).len() != reason_code_text(C::UnsafePath).len());
            assert(reason_code_text(C::RedundantEnterFailed).len() != reason_code_text(C::SessionRace).len());
            assert(reason_code_text(C::RedundantEnterFailed).len() != reason_code_text(C::InvalidText).len());
            assert(reason_code_text(C::RedundantEnterFailed).len() != reason_code_text(C::MixedPayload).len());
            assert(reason_code_text(C::RedundantEnterFailed).len() != reason_code_text(C::InvalidNonce).len());
            assert(reason_code_text(C::RedundantEnterFailed).len() != reason_code_text(C::StoreCorrupt).len());
            assert(reason_code_text(C::RedundantEnterFailed).len() != reason_code_text(C::InvalidTarget).len());
            assert(reason_code_text(C::RedundantEnterFailed).len() != reason_code_text(C::StoreTransient).len());
            assert(reason_code_text(C::RedundantEnterFailed).len() != reason_code_text(C::ResizeUnsettled).len());
            assert(reason_code_text(C::RedundantEnterFailed).len() != reason_code_text(C::ApiClientStale).len());
            assert(reason_code_text(C::RedundantEnterFailed).len() != reason_code_text(C::InvalidEnvelope).len());
            assert(reason_code_text(C::RedundantEnterFailed).len() != reason_code_text(C::CapacityExceeded).len());
            assert(reason_code_text(C::RedundantEnterFailed).len() != reason_code_text(C::AuthorityChanged).len());
            assert(reason_code_text(C::RedundantEnterFailed).len() != reason_code_text(C::TextWriteFailed).len());
            assert(reason_code_text(C::RedundantEnterFailed).len() != reason_code_text(C::SpawnFailedSafe).len());
            assert(reason_code_text(C::RedundantEnterFailed).len() != reason_code_text(C::PayloadTooLarge).len());
            assert(reason_code_text(C::RedundantEnterFailed).len() != reason_code_text(C::InvalidTimestamp).len());
            assert(reason_code_text(C::RedundantEnterFailed).len() != reason_code_text(C::TargetNotMember).len());
            assert(reason_code_text(C::RedundantEnterFailed).len() != reason_code_text(C::PurgeInProgress).len());
            assert(reason_code_text(C::RedundantEnterFailed).len() != reason_code_text(C::ReadinessTimeout).len());
            assert(reason_code_text(C::RedundantEnterFailed).len() != reason_code_text(C::ArtifactUnclaimed).len());
            assert(reason_code_text(C::RedundantEnterFailed).len() != reason_code_text(C::ApiScopeRequired).len());
            assert(reason_code_text(C::RedundantEnterFailed).len() != reason_code_text(C::ApiClientUnbound).len());
            assert(reason_code_text(C::RedundantEnterFailed).len() != reason_code_text(C::InvalidEnterMode).len());
            assert(reason_code_text(C::RedundantEnterFailed).len() != reason_code_text(C::UnsupportedProfile).len());
            assert(reason_code_text(C::RedundantEnterFailed).len() != reason_code_text(C::TargetOutOfScope).len());
            assert(reason_code_text(C::RedundantEnterFailed).len() != reason_code_text(C::UnsupportedVersion).len());
            assert(reason_code_text(C::RedundantEnterFailed).len() != reason_code_text(C::UnsupportedSession).len());
            assert(reason_code_text(C::RedundantEnterFailed).len() != reason_code_text(C::UntrackedReadiness).len());
            assert(reason_code_text(C::RedundantEnterFailed).len() != reason_code_text(C::RestoreInProgress).len());
            assert(reason_code_text(C::RedundantEnterFailed).len() != reason_code_text(C::ApiBindingMismatch).len());
            assert(reason_code_text(C::RedundantEnterFailed).len() != reason_code_text(C::InconsistentSession).len());
            assert(reason_code_text(C::RedundantEnterFailed).len() != reason_code_text(C::IdempotencyConflict).len());
            assert(reason_code_text(C::RedundantEnterFailed).len() != reason_code_text(C::TerminalStoreFailed).len());
            assert(reason_code_text(C::RedundantEnterFailed).len() != reason_code_text(C::RequiredEnterFailed).len());
            assert(reason_code_text(C::RedundantEnterFailed).len() != reason_code_text(C::RootIdentityInvalid).len());
            assert(reason_code_text(C::RedundantEnterFailed).len() != reason_code_text(C::InvalidSessionToken).len());
            assert(reason_code_text(C::RedundantEnterFailed).len() != reason_code_text(C::TargetIsCoordinator).len());
        },
        C::SessionTokenRequired => {
            assert(reason_code_text(C::SessionTokenRequired).len() != reason_code_text(C::Busy).len());
            assert(reason_code_text(C::SessionTokenRequired).len() != reason_code_text(C::Expired).len());
            assert(reason_code_text(C::SessionTokenRequired).len() != reason_code_text(C::InvalidId).len());
            assert(reason_code_text(C::SessionTokenRequired).len() != reason_code_text(C::LeaseLost).len());
            assert(reason_code_text(C::SessionTokenRequired).len() != reason_code_text(C::UnsafePath).len());
            assert(reason_code_text(C::SessionTokenRequired).len() != reason_code_text(C::SessionRace).len());
            assert(reason_code_text(C::SessionTokenRequired).len() != reason_code_text(C::InvalidText).len());
            assert(reason_code_text(C::SessionTokenRequired).len() != reason_code_text(C::MixedPayload).len());
            assert(reason_code_text(C::SessionTokenRequired).len() != reason_code_text(C::InvalidNonce).len());
            assert(reason_code_text(C::SessionTokenRequired).len() != reason_code_text(C::StoreCorrupt).len());
            assert(reason_code_text(C::SessionTokenRequired).len() != reason_code_text(C::InvalidTarget).len());
            assert(reason_code_text(C::SessionTokenRequired).len() != reason_code_text(C::StoreTransient).len());
            assert(reason_code_text(C::SessionTokenRequired).len() != reason_code_text(C::ResizeUnsettled).len());
            assert(reason_code_text(C::SessionTokenRequired).len() != reason_code_text(C::ApiClientStale).len());
            assert(reason_code_text(C::SessionTokenRequired).len() != reason_code_text(C::InvalidEnvelope).len());
            assert(reason_code_text(C::SessionTokenRequired).len() != reason_code_text(C::CapacityExceeded).len());
            assert(reason_code_text(C::SessionTokenRequired).len() != reason_code_text(C::AuthorityChanged).len());
            assert(reason_code_text(C::SessionTokenRequired).len() != reason_code_text(C::TextWriteFailed).len());
            assert(reason_code_text(C::SessionTokenRequired).len() != reason_code_text(C::SpawnFailedSafe).len());
            assert(reason_code_text(C::SessionTokenRequired).len() != reason_code_text(C::PayloadTooLarge).len());
            assert(reason_code_text(C::SessionTokenRequired).len() != reason_code_text(C::InvalidTimestamp).len());
            assert(reason_code_text(C::SessionTokenRequired).len() != reason_code_text(C::TargetNotMember).len());
            assert(reason_code_text(C::SessionTokenRequired).len() != reason_code_text(C::PurgeInProgress).len());
            assert(reason_code_text(C::SessionTokenRequired).len() != reason_code_text(C::ReadinessTimeout).len());
            assert(reason_code_text(C::SessionTokenRequired).len() != reason_code_text(C::ArtifactUnclaimed).len());
            assert(reason_code_text(C::SessionTokenRequired).len() != reason_code_text(C::ApiScopeRequired).len());
            assert(reason_code_text(C::SessionTokenRequired).len() != reason_code_text(C::ApiClientUnbound).len());
            assert(reason_code_text(C::SessionTokenRequired).len() != reason_code_text(C::InvalidEnterMode).len());
            assert(reason_code_text(C::SessionTokenRequired).len() != reason_code_text(C::UnsupportedProfile).len());
            assert(reason_code_text(C::SessionTokenRequired).len() != reason_code_text(C::TargetOutOfScope).len());
            assert(reason_code_text(C::SessionTokenRequired).len() != reason_code_text(C::UnsupportedVersion).len());
            assert(reason_code_text(C::SessionTokenRequired).len() != reason_code_text(C::UnsupportedSession).len());
            assert(reason_code_text(C::SessionTokenRequired).len() != reason_code_text(C::UntrackedReadiness).len());
            assert(reason_code_text(C::SessionTokenRequired).len() != reason_code_text(C::RestoreInProgress).len());
            assert(reason_code_text(C::SessionTokenRequired).len() != reason_code_text(C::ApiBindingMismatch).len());
            assert(reason_code_text(C::SessionTokenRequired).len() != reason_code_text(C::InconsistentSession).len());
            assert(reason_code_text(C::SessionTokenRequired).len() != reason_code_text(C::IdempotencyConflict).len());
            assert(reason_code_text(C::SessionTokenRequired).len() != reason_code_text(C::TerminalStoreFailed).len());
            assert(reason_code_text(C::SessionTokenRequired).len() != reason_code_text(C::RequiredEnterFailed).len());
            assert(reason_code_text(C::SessionTokenRequired).len() != reason_code_text(C::RootIdentityInvalid).len());
            assert(reason_code_text(C::SessionTokenRequired).len() != reason_code_text(C::InvalidSessionToken).len());
            assert(reason_code_text(C::SessionTokenRequired).len() != reason_code_text(C::TargetIsCoordinator).len());
            assert(reason_code_text(C::SessionTokenRequired)[0] != reason_code_text(C::RedundantEnterFailed)[0]);
        },
        C::SenderNotCoordinator => {
            assert(reason_code_text(C::SenderNotCoordinator).len() != reason_code_text(C::Busy).len());
            assert(reason_code_text(C::SenderNotCoordinator).len() != reason_code_text(C::Expired).len());
            assert(reason_code_text(C::SenderNotCoordinator).len() != reason_code_text(C::InvalidId).len());
            assert(reason_code_text(C::SenderNotCoordinator).len() != reason_code_text(C::LeaseLost).len());
            assert(reason_code_text(C::SenderNotCoordinator).len() != reason_code_text(C::UnsafePath).len());
            assert(reason_code_text(C::SenderNotCoordinator).len() != reason_code_text(C::SessionRace).len());
            assert(reason_code_text(C::SenderNotCoordinator).len() != reason_code_text(C::InvalidText).len());
            assert(reason_code_text(C::SenderNotCoordinator).len() != reason_code_text(C::MixedPayload).len());
            assert(reason_code_text(C::SenderNotCoordinator).len() != reason_code_text(C::InvalidNonce).len());
            assert(reason_code_text(C::SenderNotCoordinator).len() != reason_code_text(C::StoreCorrupt).len());
            assert(reason_code_text(C::SenderNotCoordinator).len() != reason_code_text(C::InvalidTarget).len());
            assert(reason_code_text(C::SenderNotCoordinator).len() != reason_code_text(C::StoreTransient).len());
            assert(reason_code_text(C::SenderNotCoordinator).len() != reason_code_text(C::ResizeUnsettled).len());
            assert(reason_code_text(C::SenderNotCoordinator).len() != reason_code_text(C::ApiClientStale).len());
            assert(reason_code_text(C::SenderNotCoordinator).len() != reason_code_text(C::InvalidEnvelope).len());
            assert(reason_code_text(C::SenderNotCoordinator).len() != reason_code_text(C::CapacityExceeded).len());
            assert(reason_code_text(C::SenderNotCoordinator).len() != reason_code_text(C::AuthorityChanged).len());
            assert(reason_code_text(C::SenderNotCoordinator).len() != reason_code_text(C::TextWriteFailed).len());
            assert(reason_code_text(C::SenderNotCoordinator).len() != reason_code_text(C::SpawnFailedSafe).len());
            assert(reason_code_text(C::SenderNotCoordinator).len() != reason_code_text(C::PayloadTooLarge).len());
            assert(reason_code_text(C::SenderNotCoordinator).len() != reason_code_text(C::InvalidTimestamp).len());
            assert(reason_code_text(C::SenderNotCoordinator).len() != reason_code_text(C::TargetNotMember).len());
            assert(reason_code_text(C::SenderNotCoordinator).len() != reason_code_text(C::PurgeInProgress).len());
            assert(reason_code_text(C::SenderNotCoordinator).len() != reason_code_text(C::ReadinessTimeout).len());
            assert(reason_code_text(C::SenderNotCoordinator).len() != reason_code_text(C::ArtifactUnclaimed).len());
            assert(reason_code_text(C::SenderNotCoordinator).len() != reason_code_text(C::ApiScopeRequired).len());
            assert(reason_code_text(C::SenderNotCoordinator).len() != reason_code_text(C::ApiClientUnbound).len());
            assert(reason_code_text(C::SenderNotCoordinator).len() != reason_code_text(C::InvalidEnterMode).len());
            assert(reason_code_text(C::SenderNotCoordinator).len() != reason_code_text(C::UnsupportedProfile).len());
            assert(reason_code_text(C::SenderNotCoordinator).len() != reason_code_text(C::TargetOutOfScope).len());
            assert(reason_code_text(C::SenderNotCoordinator).len() != reason_code_text(C::UnsupportedVersion).len());
            assert(reason_code_text(C::SenderNotCoordinator).len() != reason_code_text(C::UnsupportedSession).len());
            assert(reason_code_text(C::SenderNotCoordinator).len() != reason_code_text(C::UntrackedReadiness).len());
            assert(reason_code_text(C::SenderNotCoordinator).len() != reason_code_text(C::RestoreInProgress).len());
            assert(reason_code_text(C::SenderNotCoordinator).len() != reason_code_text(C::ApiBindingMismatch).len());
            assert(reason_code_text(C::SenderNotCoordinator).len() != reason_code_text(C::InconsistentSession).len());
            assert(reason_code_text(C::SenderNotCoordinator).len() != reason_code_text(C::IdempotencyConflict).len());
            assert(reason_code_text(C::SenderNotCoordinator).len() != reason_code_text(C::TerminalStoreFailed).len());
            assert(reason_code_text(C::SenderNotCoordinator).len() != reason_code_text(C::RequiredEnterFailed).len());
            assert(reason_code_text(C::SenderNotCoordinator).len() != reason_code_text(C::RootIdentityInvalid).len());
            assert(reason_code_text(C::SenderNotCoordinator).len() != reason_code_text(C::InvalidSessionToken).len());
            assert(reason_code_text(C::SenderNotCoordinator).len() != reason_code_text(C::TargetIsCoordinator).len());
            assert(reason_code_text(C::SenderNotCoordinator)[0] != reason_code_text(C::RedundantEnterFailed)[0]);
            assert(reason_code_text(C::SenderNotCoordinator)[2] != reason_code_text(C::SessionTokenRequired)[2]);
        },
        C::SenderIdentityInvalid => {
            assert(reason_code_text(C::SenderIdentityInvalid).len() != reason_code_text(C::Busy).len());
            assert(reason_code_text(C::SenderIdentityInvalid).len() != reason_code_text(C::Expired).len());
            assert(reason_code_text(C::SenderIdentityInvalid).len() != reason_code_text(C::InvalidId).len());
            assert(reason_code_text(C::SenderIdentityInvalid).len() != reason_code_text(C::LeaseLost).len());
            assert(reason_code_text(C::SenderIdentityInvalid).len() != reason_code_text(C::UnsafePath).len());
            assert(reason_code_text(C::SenderIdentityInvalid).len() != reason_code_text(C::SessionRace).len());
            assert(reason_code_text(C::SenderIdentityInvalid).len() != reason_code_text(C::InvalidText).len());
            assert(reason_code_text(C::SenderIdentityInvalid).len() != reason_code_text(C::MixedPayload).len());
            assert(reason_code_text(C::SenderIdentityInvalid).len() != reason_code_text(C::InvalidNonce).len());
            assert(reason_code_text(C::SenderIdentityInvalid).len() != reason_code_text(C::StoreCorrupt).len());
            assert(reason_code_text(C::SenderIdentityInvalid).len() != reason_code_text(C::InvalidTarget).len());
            assert(reason_code_text(C::SenderIdentityInvalid).len() != reason_code_text(C::StoreTransient).len());
            assert(reason_code_text(C::SenderIdentityInvalid).len() != reason_code_text(C::ResizeUnsettled).len());
            assert(reason_code_text(C::SenderIdentityInvalid).len() != reason_code_text(C::ApiClientStale).len());
            assert(reason_code_text(C::SenderIdentityInvalid).len() != reason_code_text(C::InvalidEnvelope).len());
            assert(reason_code_text(C::SenderIdentityInvalid).len() != reason_code_text(C::CapacityExceeded).len());
            assert(reason_code_text(C::SenderIdentityInvalid).len() != reason_code_text(C::AuthorityChanged).len());
            assert(reason_code_text(C::SenderIdentityInvalid).len() != reason_code_text(C::TextWriteFailed).len());
            assert(reason_code_text(C::SenderIdentityInvalid).len() != reason_code_text(C::SpawnFailedSafe).len());
            assert(reason_code_text(C::SenderIdentityInvalid).len() != reason_code_text(C::PayloadTooLarge).len());
            assert(reason_code_text(C::SenderIdentityInvalid).len() != reason_code_text(C::InvalidTimestamp).len());
            assert(reason_code_text(C::SenderIdentityInvalid).len() != reason_code_text(C::TargetNotMember).len());
            assert(reason_code_text(C::SenderIdentityInvalid).len() != reason_code_text(C::PurgeInProgress).len());
            assert(reason_code_text(C::SenderIdentityInvalid).len() != reason_code_text(C::ReadinessTimeout).len());
            assert(reason_code_text(C::SenderIdentityInvalid).len() != reason_code_text(C::ArtifactUnclaimed).len());
            assert(reason_code_text(C::SenderIdentityInvalid).len() != reason_code_text(C::ApiScopeRequired).len());
            assert(reason_code_text(C::SenderIdentityInvalid).len() != reason_code_text(C::ApiClientUnbound).len());
            assert(reason_code_text(C::SenderIdentityInvalid).len() != reason_code_text(C::InvalidEnterMode).len());
            assert(reason_code_text(C::SenderIdentityInvalid).len() != reason_code_text(C::UnsupportedProfile).len());
            assert(reason_code_text(C::SenderIdentityInvalid).len() != reason_code_text(C::TargetOutOfScope).len());
            assert(reason_code_text(C::SenderIdentityInvalid).len() != reason_code_text(C::UnsupportedVersion).len());
            assert(reason_code_text(C::SenderIdentityInvalid).len() != reason_code_text(C::UnsupportedSession).len());
            assert(reason_code_text(C::SenderIdentityInvalid).len() != reason_code_text(C::UntrackedReadiness).len());
            assert(reason_code_text(C::SenderIdentityInvalid).len() != reason_code_text(C::RestoreInProgress).len());
            assert(reason_code_text(C::SenderIdentityInvalid).len() != reason_code_text(C::ApiBindingMismatch).len());
            assert(reason_code_text(C::SenderIdentityInvalid).len() != reason_code_text(C::InconsistentSession).len());
            assert(reason_code_text(C::SenderIdentityInvalid).len() != reason_code_text(C::IdempotencyConflict).len());
            assert(reason_code_text(C::SenderIdentityInvalid).len() != reason_code_text(C::TerminalStoreFailed).len());
            assert(reason_code_text(C::SenderIdentityInvalid).len() != reason_code_text(C::RequiredEnterFailed).len());
            assert(reason_code_text(C::SenderIdentityInvalid).len() != reason_code_text(C::RootIdentityInvalid).len());
            assert(reason_code_text(C::SenderIdentityInvalid).len() != reason_code_text(C::InvalidSessionToken).len());
            assert(reason_code_text(C::SenderIdentityInvalid).len() != reason_code_text(C::TargetIsCoordinator).len());
            assert(reason_code_text(C::SenderIdentityInvalid).len() != reason_code_text(C::RedundantEnterFailed).len());
            assert(reason_code_text(C::SenderIdentityInvalid).len() != reason_code_text(C::SessionTokenRequired).len());
            assert(reason_code_text(C::SenderIdentityInvalid).len() != reason_code_text(C::SenderNotCoordinator).len());
        },
        C::SenderSessionNotLive => {
            assert(reason_code_text(C::SenderSessionNotLive).len() != reason_code_text(C::Busy).len());
            assert(reason_code_text(C::SenderSessionNotLive).len() != reason_code_text(C::Expired).len());
            assert(reason_code_text(C::SenderSessionNotLive).len() != reason_code_text(C::InvalidId).len());
            assert(reason_code_text(C::SenderSessionNotLive).len() != reason_code_text(C::LeaseLost).len());
            assert(reason_code_text(C::SenderSessionNotLive).len() != reason_code_text(C::UnsafePath).len());
            assert(reason_code_text(C::SenderSessionNotLive).len() != reason_code_text(C::SessionRace).len());
            assert(reason_code_text(C::SenderSessionNotLive).len() != reason_code_text(C::InvalidText).len());
            assert(reason_code_text(C::SenderSessionNotLive).len() != reason_code_text(C::MixedPayload).len());
            assert(reason_code_text(C::SenderSessionNotLive).len() != reason_code_text(C::InvalidNonce).len());
            assert(reason_code_text(C::SenderSessionNotLive).len() != reason_code_text(C::StoreCorrupt).len());
            assert(reason_code_text(C::SenderSessionNotLive).len() != reason_code_text(C::InvalidTarget).len());
            assert(reason_code_text(C::SenderSessionNotLive).len() != reason_code_text(C::StoreTransient).len());
            assert(reason_code_text(C::SenderSessionNotLive).len() != reason_code_text(C::ResizeUnsettled).len());
            assert(reason_code_text(C::SenderSessionNotLive).len() != reason_code_text(C::ApiClientStale).len());
            assert(reason_code_text(C::SenderSessionNotLive).len() != reason_code_text(C::InvalidEnvelope).len());
            assert(reason_code_text(C::SenderSessionNotLive).len() != reason_code_text(C::CapacityExceeded).len());
            assert(reason_code_text(C::SenderSessionNotLive).len() != reason_code_text(C::AuthorityChanged).len());
            assert(reason_code_text(C::SenderSessionNotLive).len() != reason_code_text(C::TextWriteFailed).len());
            assert(reason_code_text(C::SenderSessionNotLive).len() != reason_code_text(C::SpawnFailedSafe).len());
            assert(reason_code_text(C::SenderSessionNotLive).len() != reason_code_text(C::PayloadTooLarge).len());
            assert(reason_code_text(C::SenderSessionNotLive).len() != reason_code_text(C::InvalidTimestamp).len());
            assert(reason_code_text(C::SenderSessionNotLive).len() != reason_code_text(C::TargetNotMember).len());
            assert(reason_code_text(C::SenderSessionNotLive).len() != reason_code_text(C::PurgeInProgress).len());
            assert(reason_code_text(C::SenderSessionNotLive).len() != reason_code_text(C::ReadinessTimeout).len());
            assert(reason_code_text(C::SenderSessionNotLive).len() != reason_code_text(C::ArtifactUnclaimed).len());
            assert(reason_code_text(C::SenderSessionNotLive).len() != reason_code_text(C::ApiScopeRequired).len());
            assert(reason_code_text(C::SenderSessionNotLive).len() != reason_code_text(C::ApiClientUnbound).len());
            assert(reason_code_text(C::SenderSessionNotLive).len() != reason_code_text(C::InvalidEnterMode).len());
            assert(reason_code_text(C::SenderSessionNotLive).len() != reason_code_text(C::UnsupportedProfile).len());
            assert(reason_code_text(C::SenderSessionNotLive).len() != reason_code_text(C::TargetOutOfScope).len());
            assert(reason_code_text(C::SenderSessionNotLive).len() != reason_code_text(C::UnsupportedVersion).len());
            assert(reason_code_text(C::SenderSessionNotLive).len() != reason_code_text(C::UnsupportedSession).len());
            assert(reason_code_text(C::SenderSessionNotLive).len() != reason_code_text(C::UntrackedReadiness).len());
            assert(reason_code_text(C::SenderSessionNotLive).len() != reason_code_text(C::RestoreInProgress).len());
            assert(reason_code_text(C::SenderSessionNotLive).len() != reason_code_text(C::ApiBindingMismatch).len());
            assert(reason_code_text(C::SenderSessionNotLive).len() != reason_code_text(C::InconsistentSession).len());
            assert(reason_code_text(C::SenderSessionNotLive).len() != reason_code_text(C::IdempotencyConflict).len());
            assert(reason_code_text(C::SenderSessionNotLive).len() != reason_code_text(C::TerminalStoreFailed).len());
            assert(reason_code_text(C::SenderSessionNotLive).len() != reason_code_text(C::RequiredEnterFailed).len());
            assert(reason_code_text(C::SenderSessionNotLive).len() != reason_code_text(C::RootIdentityInvalid).len());
            assert(reason_code_text(C::SenderSessionNotLive).len() != reason_code_text(C::InvalidSessionToken).len());
            assert(reason_code_text(C::SenderSessionNotLive).len() != reason_code_text(C::TargetIsCoordinator).len());
            assert(reason_code_text(C::SenderSessionNotLive).len() != reason_code_text(C::RedundantEnterFailed).len());
            assert(reason_code_text(C::SenderSessionNotLive).len() != reason_code_text(C::SessionTokenRequired).len());
            assert(reason_code_text(C::SenderSessionNotLive).len() != reason_code_text(C::SenderNotCoordinator).len());
            assert(reason_code_text(C::SenderSessionNotLive)[7] != reason_code_text(C::SenderIdentityInvalid)[7]);
        },
        C::AmbiguousSessionToken => {
            assert(reason_code_text(C::AmbiguousSessionToken).len() != reason_code_text(C::Busy).len());
            assert(reason_code_text(C::AmbiguousSessionToken).len() != reason_code_text(C::Expired).len());
            assert(reason_code_text(C::AmbiguousSessionToken).len() != reason_code_text(C::InvalidId).len());
            assert(reason_code_text(C::AmbiguousSessionToken).len() != reason_code_text(C::LeaseLost).len());
            assert(reason_code_text(C::AmbiguousSessionToken).len() != reason_code_text(C::UnsafePath).len());
            assert(reason_code_text(C::AmbiguousSessionToken).len() != reason_code_text(C::SessionRace).len());
            assert(reason_code_text(C::AmbiguousSessionToken).len() != reason_code_text(C::InvalidText).len());
            assert(reason_code_text(C::AmbiguousSessionToken).len() != reason_code_text(C::MixedPayload).len());
            assert(reason_code_text(C::AmbiguousSessionToken).len() != reason_code_text(C::InvalidNonce).len());
            assert(reason_code_text(C::AmbiguousSessionToken).len() != reason_code_text(C::StoreCorrupt).len());
            assert(reason_code_text(C::AmbiguousSessionToken).len() != reason_code_text(C::InvalidTarget).len());
            assert(reason_code_text(C::AmbiguousSessionToken).len() != reason_code_text(C::StoreTransient).len());
            assert(reason_code_text(C::AmbiguousSessionToken).len() != reason_code_text(C::ResizeUnsettled).len());
            assert(reason_code_text(C::AmbiguousSessionToken).len() != reason_code_text(C::ApiClientStale).len());
            assert(reason_code_text(C::AmbiguousSessionToken).len() != reason_code_text(C::InvalidEnvelope).len());
            assert(reason_code_text(C::AmbiguousSessionToken).len() != reason_code_text(C::CapacityExceeded).len());
            assert(reason_code_text(C::AmbiguousSessionToken).len() != reason_code_text(C::AuthorityChanged).len());
            assert(reason_code_text(C::AmbiguousSessionToken).len() != reason_code_text(C::TextWriteFailed).len());
            assert(reason_code_text(C::AmbiguousSessionToken).len() != reason_code_text(C::SpawnFailedSafe).len());
            assert(reason_code_text(C::AmbiguousSessionToken).len() != reason_code_text(C::PayloadTooLarge).len());
            assert(reason_code_text(C::AmbiguousSessionToken).len() != reason_code_text(C::InvalidTimestamp).len());
            assert(reason_code_text(C::AmbiguousSessionToken).len() != reason_code_text(C::TargetNotMember).len());
            assert(reason_code_text(C::AmbiguousSessionToken).len() != reason_code_text(C::PurgeInProgress).len());
            assert(reason_code_text(C::AmbiguousSessionToken).len() != reason_code_text(C::ReadinessTimeout).len());
            assert(reason_code_text(C::AmbiguousSessionToken).len() != reason_code_text(C::ArtifactUnclaimed).len());
            assert(reason_code_text(C::AmbiguousSessionToken).len() != reason_code_text(C::ApiScopeRequired).len());
            assert(reason_code_text(C::AmbiguousSessionToken).len() != reason_code_text(C::ApiClientUnbound).len());
            assert(reason_code_text(C::AmbiguousSessionToken).len() != reason_code_text(C::InvalidEnterMode).len());
            assert(reason_code_text(C::AmbiguousSessionToken).len() != reason_code_text(C::UnsupportedProfile).len());
            assert(reason_code_text(C::AmbiguousSessionToken).len() != reason_code_text(C::TargetOutOfScope).len());
            assert(reason_code_text(C::AmbiguousSessionToken).len() != reason_code_text(C::UnsupportedVersion).len());
            assert(reason_code_text(C::AmbiguousSessionToken).len() != reason_code_text(C::UnsupportedSession).len());
            assert(reason_code_text(C::AmbiguousSessionToken).len() != reason_code_text(C::UntrackedReadiness).len());
            assert(reason_code_text(C::AmbiguousSessionToken).len() != reason_code_text(C::RestoreInProgress).len());
            assert(reason_code_text(C::AmbiguousSessionToken).len() != reason_code_text(C::ApiBindingMismatch).len());
            assert(reason_code_text(C::AmbiguousSessionToken).len() != reason_code_text(C::InconsistentSession).len());
            assert(reason_code_text(C::AmbiguousSessionToken).len() != reason_code_text(C::IdempotencyConflict).len());
            assert(reason_code_text(C::AmbiguousSessionToken).len() != reason_code_text(C::TerminalStoreFailed).len());
            assert(reason_code_text(C::AmbiguousSessionToken).len() != reason_code_text(C::RequiredEnterFailed).len());
            assert(reason_code_text(C::AmbiguousSessionToken).len() != reason_code_text(C::RootIdentityInvalid).len());
            assert(reason_code_text(C::AmbiguousSessionToken).len() != reason_code_text(C::InvalidSessionToken).len());
            assert(reason_code_text(C::AmbiguousSessionToken).len() != reason_code_text(C::TargetIsCoordinator).len());
            assert(reason_code_text(C::AmbiguousSessionToken).len() != reason_code_text(C::RedundantEnterFailed).len());
            assert(reason_code_text(C::AmbiguousSessionToken).len() != reason_code_text(C::SessionTokenRequired).len());
            assert(reason_code_text(C::AmbiguousSessionToken).len() != reason_code_text(C::SenderNotCoordinator).len());
            assert(reason_code_text(C::AmbiguousSessionToken)[0] != reason_code_text(C::SenderIdentityInvalid)[0]);
            assert(reason_code_text(C::AmbiguousSessionToken)[0] != reason_code_text(C::SenderSessionNotLive)[0]);
        },
        C::BoundaryMetadataFailed => {
            assert(reason_code_text(C::BoundaryMetadataFailed).len() != reason_code_text(C::Busy).len());
            assert(reason_code_text(C::BoundaryMetadataFailed).len() != reason_code_text(C::Expired).len());
            assert(reason_code_text(C::BoundaryMetadataFailed).len() != reason_code_text(C::InvalidId).len());
            assert(reason_code_text(C::BoundaryMetadataFailed).len() != reason_code_text(C::LeaseLost).len());
            assert(reason_code_text(C::BoundaryMetadataFailed).len() != reason_code_text(C::UnsafePath).len());
            assert(reason_code_text(C::BoundaryMetadataFailed).len() != reason_code_text(C::SessionRace).len());
            assert(reason_code_text(C::BoundaryMetadataFailed).len() != reason_code_text(C::InvalidText).len());
            assert(reason_code_text(C::BoundaryMetadataFailed).len() != reason_code_text(C::MixedPayload).len());
            assert(reason_code_text(C::BoundaryMetadataFailed).len() != reason_code_text(C::InvalidNonce).len());
            assert(reason_code_text(C::BoundaryMetadataFailed).len() != reason_code_text(C::StoreCorrupt).len());
            assert(reason_code_text(C::BoundaryMetadataFailed).len() != reason_code_text(C::InvalidTarget).len());
            assert(reason_code_text(C::BoundaryMetadataFailed).len() != reason_code_text(C::StoreTransient).len());
            assert(reason_code_text(C::BoundaryMetadataFailed).len() != reason_code_text(C::ResizeUnsettled).len());
            assert(reason_code_text(C::BoundaryMetadataFailed).len() != reason_code_text(C::ApiClientStale).len());
            assert(reason_code_text(C::BoundaryMetadataFailed).len() != reason_code_text(C::InvalidEnvelope).len());
            assert(reason_code_text(C::BoundaryMetadataFailed).len() != reason_code_text(C::CapacityExceeded).len());
            assert(reason_code_text(C::BoundaryMetadataFailed).len() != reason_code_text(C::AuthorityChanged).len());
            assert(reason_code_text(C::BoundaryMetadataFailed).len() != reason_code_text(C::TextWriteFailed).len());
            assert(reason_code_text(C::BoundaryMetadataFailed).len() != reason_code_text(C::SpawnFailedSafe).len());
            assert(reason_code_text(C::BoundaryMetadataFailed).len() != reason_code_text(C::PayloadTooLarge).len());
            assert(reason_code_text(C::BoundaryMetadataFailed).len() != reason_code_text(C::InvalidTimestamp).len());
            assert(reason_code_text(C::BoundaryMetadataFailed).len() != reason_code_text(C::TargetNotMember).len());
            assert(reason_code_text(C::BoundaryMetadataFailed).len() != reason_code_text(C::PurgeInProgress).len());
            assert(reason_code_text(C::BoundaryMetadataFailed).len() != reason_code_text(C::ReadinessTimeout).len());
            assert(reason_code_text(C::BoundaryMetadataFailed).len() != reason_code_text(C::ArtifactUnclaimed).len());
            assert(reason_code_text(C::BoundaryMetadataFailed).len() != reason_code_text(C::ApiScopeRequired).len());
            assert(reason_code_text(C::BoundaryMetadataFailed).len() != reason_code_text(C::ApiClientUnbound).len());
            assert(reason_code_text(C::BoundaryMetadataFailed).len() != reason_code_text(C::InvalidEnterMode).len());
            assert(reason_code_text(C::BoundaryMetadataFailed).len() != reason_code_text(C::UnsupportedProfile).len());
            assert(reason_code_text(C::BoundaryMetadataFailed).len() != reason_code_text(C::TargetOutOfScope).len());
            assert(reason_code_text(C::BoundaryMetadataFailed).len() != reason_code_text(C::UnsupportedVersion).len());
            assert(reason_code_text(C::BoundaryMetadataFailed).len() != reason_code_text(C::UnsupportedSession).len());
            assert(reason_code_text(C::BoundaryMetadataFailed).len() != reason_code_text(C::UntrackedReadiness).len());
            assert(reason_code_text(C::BoundaryMetadataFailed).len() != reason_code_text(C::RestoreInProgress).len());
            assert(reason_code_text(C::BoundaryMetadataFailed).len() != reason_code_text(C::ApiBindingMismatch).len());
            assert(reason_code_text(C::BoundaryMetadataFailed).len() != reason_code_text(C::InconsistentSession).len());
            assert(reason_code_text(C::BoundaryMetadataFailed).len() != reason_code_text(C::IdempotencyConflict).len());
            assert(reason_code_text(C::BoundaryMetadataFailed).len() != reason_code_text(C::TerminalStoreFailed).len());
            assert(reason_code_text(C::BoundaryMetadataFailed).len() != reason_code_text(C::RequiredEnterFailed).len());
            assert(reason_code_text(C::BoundaryMetadataFailed).len() != reason_code_text(C::RootIdentityInvalid).len());
            assert(reason_code_text(C::BoundaryMetadataFailed).len() != reason_code_text(C::InvalidSessionToken).len());
            assert(reason_code_text(C::BoundaryMetadataFailed).len() != reason_code_text(C::TargetIsCoordinator).len());
            assert(reason_code_text(C::BoundaryMetadataFailed).len() != reason_code_text(C::RedundantEnterFailed).len());
            assert(reason_code_text(C::BoundaryMetadataFailed).len() != reason_code_text(C::SessionTokenRequired).len());
            assert(reason_code_text(C::BoundaryMetadataFailed).len() != reason_code_text(C::SenderNotCoordinator).len());
            assert(reason_code_text(C::BoundaryMetadataFailed).len() != reason_code_text(C::SenderIdentityInvalid).len());
            assert(reason_code_text(C::BoundaryMetadataFailed).len() != reason_code_text(C::SenderSessionNotLive).len());
            assert(reason_code_text(C::BoundaryMetadataFailed).len() != reason_code_text(C::AmbiguousSessionToken).len());
        },
        C::SenderBackendNotLocal => {
            assert(reason_code_text(C::SenderBackendNotLocal).len() != reason_code_text(C::Busy).len());
            assert(reason_code_text(C::SenderBackendNotLocal).len() != reason_code_text(C::Expired).len());
            assert(reason_code_text(C::SenderBackendNotLocal).len() != reason_code_text(C::InvalidId).len());
            assert(reason_code_text(C::SenderBackendNotLocal).len() != reason_code_text(C::LeaseLost).len());
            assert(reason_code_text(C::SenderBackendNotLocal).len() != reason_code_text(C::UnsafePath).len());
            assert(reason_code_text(C::SenderBackendNotLocal).len() != reason_code_text(C::SessionRace).len());
            assert(reason_code_text(C::SenderBackendNotLocal).len() != reason_code_text(C::InvalidText).len());
            assert(reason_code_text(C::SenderBackendNotLocal).len() != reason_code_text(C::MixedPayload).len());
            assert(reason_code_text(C::SenderBackendNotLocal).len() != reason_code_text(C::InvalidNonce).len());
            assert(reason_code_text(C::SenderBackendNotLocal).len() != reason_code_text(C::StoreCorrupt).len());
            assert(reason_code_text(C::SenderBackendNotLocal).len() != reason_code_text(C::InvalidTarget).len());
            assert(reason_code_text(C::SenderBackendNotLocal).len() != reason_code_text(C::StoreTransient).len());
            assert(reason_code_text(C::SenderBackendNotLocal).len() != reason_code_text(C::ResizeUnsettled).len());
            assert(reason_code_text(C::SenderBackendNotLocal).len() != reason_code_text(C::ApiClientStale).len());
            assert(reason_code_text(C::SenderBackendNotLocal).len() != reason_code_text(C::InvalidEnvelope).len());
            assert(reason_code_text(C::SenderBackendNotLocal).len() != reason_code_text(C::CapacityExceeded).len());
            assert(reason_code_text(C::SenderBackendNotLocal).len() != reason_code_text(C::AuthorityChanged).len());
            assert(reason_code_text(C::SenderBackendNotLocal).len() != reason_code_text(C::TextWriteFailed).len());
            assert(reason_code_text(C::SenderBackendNotLocal).len() != reason_code_text(C::SpawnFailedSafe).len());
            assert(reason_code_text(C::SenderBackendNotLocal).len() != reason_code_text(C::PayloadTooLarge).len());
            assert(reason_code_text(C::SenderBackendNotLocal).len() != reason_code_text(C::InvalidTimestamp).len());
            assert(reason_code_text(C::SenderBackendNotLocal).len() != reason_code_text(C::TargetNotMember).len());
            assert(reason_code_text(C::SenderBackendNotLocal).len() != reason_code_text(C::PurgeInProgress).len());
            assert(reason_code_text(C::SenderBackendNotLocal).len() != reason_code_text(C::ReadinessTimeout).len());
            assert(reason_code_text(C::SenderBackendNotLocal).len() != reason_code_text(C::ArtifactUnclaimed).len());
            assert(reason_code_text(C::SenderBackendNotLocal).len() != reason_code_text(C::ApiScopeRequired).len());
            assert(reason_code_text(C::SenderBackendNotLocal).len() != reason_code_text(C::ApiClientUnbound).len());
            assert(reason_code_text(C::SenderBackendNotLocal).len() != reason_code_text(C::InvalidEnterMode).len());
            assert(reason_code_text(C::SenderBackendNotLocal).len() != reason_code_text(C::UnsupportedProfile).len());
            assert(reason_code_text(C::SenderBackendNotLocal).len() != reason_code_text(C::TargetOutOfScope).len());
            assert(reason_code_text(C::SenderBackendNotLocal).len() != reason_code_text(C::UnsupportedVersion).len());
            assert(reason_code_text(C::SenderBackendNotLocal).len() != reason_code_text(C::UnsupportedSession).len());
            assert(reason_code_text(C::SenderBackendNotLocal).len() != reason_code_text(C::UntrackedReadiness).len());
            assert(reason_code_text(C::SenderBackendNotLocal).len() != reason_code_text(C::RestoreInProgress).len());
            assert(reason_code_text(C::SenderBackendNotLocal).len() != reason_code_text(C::ApiBindingMismatch).len());
            assert(reason_code_text(C::SenderBackendNotLocal).len() != reason_code_text(C::InconsistentSession).len());
            assert(reason_code_text(C::SenderBackendNotLocal).len() != reason_code_text(C::IdempotencyConflict).len());
            assert(reason_code_text(C::SenderBackendNotLocal).len() != reason_code_text(C::TerminalStoreFailed).len());
            assert(reason_code_text(C::SenderBackendNotLocal).len() != reason_code_text(C::RequiredEnterFailed).len());
            assert(reason_code_text(C::SenderBackendNotLocal).len() != reason_code_text(C::RootIdentityInvalid).len());
            assert(reason_code_text(C::SenderBackendNotLocal).len() != reason_code_text(C::InvalidSessionToken).len());
            assert(reason_code_text(C::SenderBackendNotLocal).len() != reason_code_text(C::TargetIsCoordinator).len());
            assert(reason_code_text(C::SenderBackendNotLocal).len() != reason_code_text(C::RedundantEnterFailed).len());
            assert(reason_code_text(C::SenderBackendNotLocal).len() != reason_code_text(C::SessionTokenRequired).len());
            assert(reason_code_text(C::SenderBackendNotLocal).len() != reason_code_text(C::SenderNotCoordinator).len());
            assert(reason_code_text(C::SenderBackendNotLocal).len() != reason_code_text(C::SenderIdentityInvalid).len());
            assert(reason_code_text(C::SenderBackendNotLocal).len() != reason_code_text(C::SenderSessionNotLive).len());
            assert(reason_code_text(C::SenderBackendNotLocal).len() != reason_code_text(C::AmbiguousSessionToken).len());
            assert(reason_code_text(C::SenderBackendNotLocal)[0] != reason_code_text(C::BoundaryMetadataFailed)[0]);
        },
        C::RuntimeActuationOrphan => {
            assert(reason_code_text(C::RuntimeActuationOrphan).len() != reason_code_text(C::Busy).len());
            assert(reason_code_text(C::RuntimeActuationOrphan).len() != reason_code_text(C::Expired).len());
            assert(reason_code_text(C::RuntimeActuationOrphan).len() != reason_code_text(C::InvalidId).len());
            assert(reason_code_text(C::RuntimeActuationOrphan).len() != reason_code_text(C::LeaseLost).len());
            assert(reason_code_text(C::RuntimeActuationOrphan).len() != reason_code_text(C::UnsafePath).len());
            assert(reason_code_text(C::RuntimeActuationOrphan).len() != reason_code_text(C::SessionRace).len());
            assert(reason_code_text(C::RuntimeActuationOrphan).len() != reason_code_text(C::InvalidText).len());
            assert(reason_code_text(C::RuntimeActuationOrphan).len() != reason_code_text(C::MixedPayload).len());
            assert(reason_code_text(C::RuntimeActuationOrphan).len() != reason_code_text(C::InvalidNonce).len());
            assert(reason_code_text(C::RuntimeActuationOrphan).len() != reason_code_text(C::StoreCorrupt).len());
            assert(reason_code_text(C::RuntimeActuationOrphan).len() != reason_code_text(C::InvalidTarget).len());
            assert(reason_code_text(C::RuntimeActuationOrphan).len() != reason_code_text(C::StoreTransient).len());
            assert(reason_code_text(C::RuntimeActuationOrphan).len() != reason_code_text(C::ResizeUnsettled).len());
            assert(reason_code_text(C::RuntimeActuationOrphan).len() != reason_code_text(C::ApiClientStale).len());
            assert(reason_code_text(C::RuntimeActuationOrphan).len() != reason_code_text(C::InvalidEnvelope).len());
            assert(reason_code_text(C::RuntimeActuationOrphan).len() != reason_code_text(C::CapacityExceeded).len());
            assert(reason_code_text(C::RuntimeActuationOrphan).len() != reason_code_text(C::AuthorityChanged).len());
            assert(reason_code_text(C::RuntimeActuationOrphan).len() != reason_code_text(C::TextWriteFailed).len());
            assert(reason_code_text(C::RuntimeActuationOrphan).len() != reason_code_text(C::SpawnFailedSafe).len());
            assert(reason_code_text(C::RuntimeActuationOrphan).len() != reason_code_text(C::PayloadTooLarge).len());
            assert(reason_code_text(C::RuntimeActuationOrphan).len() != reason_code_text(C::InvalidTimestamp).len());
            assert(reason_code_text(C::RuntimeActuationOrphan).len() != reason_code_text(C::TargetNotMember).len());
            assert(reason_code_text(C::RuntimeActuationOrphan).len() != reason_code_text(C::PurgeInProgress).len());
            assert(reason_code_text(C::RuntimeActuationOrphan).len() != reason_code_text(C::ReadinessTimeout).len());
            assert(reason_code_text(C::RuntimeActuationOrphan).len() != reason_code_text(C::ArtifactUnclaimed).len());
            assert(reason_code_text(C::RuntimeActuationOrphan).len() != reason_code_text(C::ApiScopeRequired).len());
            assert(reason_code_text(C::RuntimeActuationOrphan).len() != reason_code_text(C::ApiClientUnbound).len());
            assert(reason_code_text(C::RuntimeActuationOrphan).len() != reason_code_text(C::InvalidEnterMode).len());
            assert(reason_code_text(C::RuntimeActuationOrphan).len() != reason_code_text(C::UnsupportedProfile).len());
            assert(reason_code_text(C::RuntimeActuationOrphan).len() != reason_code_text(C::TargetOutOfScope).len());
            assert(reason_code_text(C::RuntimeActuationOrphan).len() != reason_code_text(C::UnsupportedVersion).len());
            assert(reason_code_text(C::RuntimeActuationOrphan).len() != reason_code_text(C::UnsupportedSession).len());
            assert(reason_code_text(C::RuntimeActuationOrphan).len() != reason_code_text(C::UntrackedReadiness).len());
            assert(reason_code_text(C::RuntimeActuationOrphan).len() != reason_code_text(C::RestoreInProgress).len());
            assert(reason_code_text(C::RuntimeActuationOrphan).len() != reason_code_text(C::ApiBindingMismatch).len());
            assert(reason_code_text(C::RuntimeActuationOrphan).len() != reason_code_text(C::InconsistentSession).len());
            assert(reason_code_text(C::RuntimeActuationOrphan).len() != reason_code_text(C::IdempotencyConflict).len());
            assert(reason_code_text(C::RuntimeActuationOrphan).len() != reason_code_text(C::TerminalStoreFailed).len());
            assert(reason_code_text(C::RuntimeActuationOrphan).len() != reason_code_text(C::RequiredEnterFailed).len());
            assert(reason_code_text(C::RuntimeActuationOrphan).len() != reason_code_text(C::RootIdentityInvalid).len());
            assert(reason_code_text(C::RuntimeActuationOrphan).len() != reason_code_text(C::InvalidSessionToken).len());
            assert(reason_code_text(C::RuntimeActuationOrphan).len() != reason_code_text(C::TargetIsCoordinator).len());
            assert(reason_code_text(C::RuntimeActuationOrphan).len() != reason_code_text(C::RedundantEnterFailed).len());
            assert(reason_code_text(C::RuntimeActuationOrphan).len() != reason_code_text(C::SessionTokenRequired).len());
            assert(reason_code_text(C::RuntimeActuationOrphan).len() != reason_code_text(C::SenderNotCoordinator).len());
            assert(reason_code_text(C::RuntimeActuationOrphan).len() != reason_code_text(C::SenderIdentityInvalid).len());
            assert(reason_code_text(C::RuntimeActuationOrphan).len() != reason_code_text(C::SenderSessionNotLive).len());
            assert(reason_code_text(C::RuntimeActuationOrphan).len() != reason_code_text(C::AmbiguousSessionToken).len());
            assert(reason_code_text(C::RuntimeActuationOrphan)[0] != reason_code_text(C::BoundaryMetadataFailed)[0]);
            assert(reason_code_text(C::RuntimeActuationOrphan)[0] != reason_code_text(C::SenderBackendNotLocal)[0]);
        },
        C::FinalRevalidationFailed => {
            assert(reason_code_text(C::FinalRevalidationFailed).len() != reason_code_text(C::Busy).len());
            assert(reason_code_text(C::FinalRevalidationFailed).len() != reason_code_text(C::Expired).len());
            assert(reason_code_text(C::FinalRevalidationFailed).len() != reason_code_text(C::InvalidId).len());
            assert(reason_code_text(C::FinalRevalidationFailed).len() != reason_code_text(C::LeaseLost).len());
            assert(reason_code_text(C::FinalRevalidationFailed).len() != reason_code_text(C::UnsafePath).len());
            assert(reason_code_text(C::FinalRevalidationFailed).len() != reason_code_text(C::SessionRace).len());
            assert(reason_code_text(C::FinalRevalidationFailed).len() != reason_code_text(C::InvalidText).len());
            assert(reason_code_text(C::FinalRevalidationFailed).len() != reason_code_text(C::MixedPayload).len());
            assert(reason_code_text(C::FinalRevalidationFailed).len() != reason_code_text(C::InvalidNonce).len());
            assert(reason_code_text(C::FinalRevalidationFailed).len() != reason_code_text(C::StoreCorrupt).len());
            assert(reason_code_text(C::FinalRevalidationFailed).len() != reason_code_text(C::InvalidTarget).len());
            assert(reason_code_text(C::FinalRevalidationFailed).len() != reason_code_text(C::StoreTransient).len());
            assert(reason_code_text(C::FinalRevalidationFailed).len() != reason_code_text(C::ResizeUnsettled).len());
            assert(reason_code_text(C::FinalRevalidationFailed).len() != reason_code_text(C::ApiClientStale).len());
            assert(reason_code_text(C::FinalRevalidationFailed).len() != reason_code_text(C::InvalidEnvelope).len());
            assert(reason_code_text(C::FinalRevalidationFailed).len() != reason_code_text(C::CapacityExceeded).len());
            assert(reason_code_text(C::FinalRevalidationFailed).len() != reason_code_text(C::AuthorityChanged).len());
            assert(reason_code_text(C::FinalRevalidationFailed).len() != reason_code_text(C::TextWriteFailed).len());
            assert(reason_code_text(C::FinalRevalidationFailed).len() != reason_code_text(C::SpawnFailedSafe).len());
            assert(reason_code_text(C::FinalRevalidationFailed).len() != reason_code_text(C::PayloadTooLarge).len());
            assert(reason_code_text(C::FinalRevalidationFailed).len() != reason_code_text(C::InvalidTimestamp).len());
            assert(reason_code_text(C::FinalRevalidationFailed).len() != reason_code_text(C::TargetNotMember).len());
            assert(reason_code_text(C::FinalRevalidationFailed).len() != reason_code_text(C::PurgeInProgress).len());
            assert(reason_code_text(C::FinalRevalidationFailed).len() != reason_code_text(C::ReadinessTimeout).len());
            assert(reason_code_text(C::FinalRevalidationFailed).len() != reason_code_text(C::ArtifactUnclaimed).len());
            assert(reason_code_text(C::FinalRevalidationFailed).len() != reason_code_text(C::ApiScopeRequired).len());
            assert(reason_code_text(C::FinalRevalidationFailed).len() != reason_code_text(C::ApiClientUnbound).len());
            assert(reason_code_text(C::FinalRevalidationFailed).len() != reason_code_text(C::InvalidEnterMode).len());
            assert(reason_code_text(C::FinalRevalidationFailed).len() != reason_code_text(C::UnsupportedProfile).len());
            assert(reason_code_text(C::FinalRevalidationFailed).len() != reason_code_text(C::TargetOutOfScope).len());
            assert(reason_code_text(C::FinalRevalidationFailed).len() != reason_code_text(C::UnsupportedVersion).len());
            assert(reason_code_text(C::FinalRevalidationFailed).len() != reason_code_text(C::UnsupportedSession).len());
            assert(reason_code_text(C::FinalRevalidationFailed).len() != reason_code_text(C::UntrackedReadiness).len());
            assert(reason_code_text(C::FinalRevalidationFailed).len() != reason_code_text(C::RestoreInProgress).len());
            assert(reason_code_text(C::FinalRevalidationFailed).len() != reason_code_text(C::ApiBindingMismatch).len());
            assert(reason_code_text(C::FinalRevalidationFailed).len() != reason_code_text(C::InconsistentSession).len());
            assert(reason_code_text(C::FinalRevalidationFailed).len() != reason_code_text(C::IdempotencyConflict).len());
            assert(reason_code_text(C::FinalRevalidationFailed).len() != reason_code_text(C::TerminalStoreFailed).len());
            assert(reason_code_text(C::FinalRevalidationFailed).len() != reason_code_text(C::RequiredEnterFailed).len());
            assert(reason_code_text(C::FinalRevalidationFailed).len() != reason_code_text(C::RootIdentityInvalid).len());
            assert(reason_code_text(C::FinalRevalidationFailed).len() != reason_code_text(C::InvalidSessionToken).len());
            assert(reason_code_text(C::FinalRevalidationFailed).len() != reason_code_text(C::TargetIsCoordinator).len());
            assert(reason_code_text(C::FinalRevalidationFailed).len() != reason_code_text(C::RedundantEnterFailed).len());
            assert(reason_code_text(C::FinalRevalidationFailed).len() != reason_code_text(C::SessionTokenRequired).len());
            assert(reason_code_text(C::FinalRevalidationFailed).len() != reason_code_text(C::SenderNotCoordinator).len());
            assert(reason_code_text(C::FinalRevalidationFailed).len() != reason_code_text(C::SenderIdentityInvalid).len());
            assert(reason_code_text(C::FinalRevalidationFailed).len() != reason_code_text(C::SenderSessionNotLive).len());
            assert(reason_code_text(C::FinalRevalidationFailed).len() != reason_code_text(C::AmbiguousSessionToken).len());
            assert(reason_code_text(C::FinalRevalidationFailed).len() != reason_code_text(C::BoundaryMetadataFailed).len());
            assert(reason_code_text(C::FinalRevalidationFailed).len() != reason_code_text(C::SenderBackendNotLocal).len());
            assert(reason_code_text(C::FinalRevalidationFailed).len() != reason_code_text(C::RuntimeActuationOrphan).len());
        },
        C::NonpersistentLiveSession => {
            assert(reason_code_text(C::NonpersistentLiveSession).len() != reason_code_text(C::Busy).len());
            assert(reason_code_text(C::NonpersistentLiveSession).len() != reason_code_text(C::Expired).len());
            assert(reason_code_text(C::NonpersistentLiveSession).len() != reason_code_text(C::InvalidId).len());
            assert(reason_code_text(C::NonpersistentLiveSession).len() != reason_code_text(C::LeaseLost).len());
            assert(reason_code_text(C::NonpersistentLiveSession).len() != reason_code_text(C::UnsafePath).len());
            assert(reason_code_text(C::NonpersistentLiveSession).len() != reason_code_text(C::SessionRace).len());
            assert(reason_code_text(C::NonpersistentLiveSession).len() != reason_code_text(C::InvalidText).len());
            assert(reason_code_text(C::NonpersistentLiveSession).len() != reason_code_text(C::MixedPayload).len());
            assert(reason_code_text(C::NonpersistentLiveSession).len() != reason_code_text(C::InvalidNonce).len());
            assert(reason_code_text(C::NonpersistentLiveSession).len() != reason_code_text(C::StoreCorrupt).len());
            assert(reason_code_text(C::NonpersistentLiveSession).len() != reason_code_text(C::InvalidTarget).len());
            assert(reason_code_text(C::NonpersistentLiveSession).len() != reason_code_text(C::StoreTransient).len());
            assert(reason_code_text(C::NonpersistentLiveSession).len() != reason_code_text(C::ResizeUnsettled).len());
            assert(reason_code_text(C::NonpersistentLiveSession).len() != reason_code_text(C::ApiClientStale).len());
            assert(reason_code_text(C::NonpersistentLiveSession).len() != reason_code_text(C::InvalidEnvelope).len());
            assert(reason_code_text(C::NonpersistentLiveSession).len() != reason_code_text(C::CapacityExceeded).len());
            assert(reason_code_text(C::NonpersistentLiveSession).len() != reason_code_text(C::AuthorityChanged).len());
            assert(reason_code_text(C::NonpersistentLiveSession).len() != reason_code_text(C::TextWriteFailed).len());
            assert(reason_code_text(C::NonpersistentLiveSession).len() != reason_code_text(C::SpawnFailedSafe).len());
            assert(reason_code_text(C::NonpersistentLiveSession).len() != reason_code_text(C::PayloadTooLarge).len());
            assert(reason_code_text(C::NonpersistentLiveSession).len() != reason_code_text(C::InvalidTimestamp).len());
            assert(reason_code_text(C::NonpersistentLiveSession).len() != reason_code_text(C::TargetNotMember).len());
            assert(reason_code_text(C::NonpersistentLiveSession).len() != reason_code_text(C::PurgeInProgress).len());
            assert(reason_code_text(C::NonpersistentLiveSession).len() != reason_code_text(C::ReadinessTimeout).len());
            assert(reason_code_text(C::NonpersistentLiveSession).len() != reason_code_text(C::ArtifactUnclaimed).len());
            assert(reason_code_text(C::NonpersistentLiveSession).len() != reason_code_text(C::ApiScopeRequired).len());
            assert(reason_code_text(C::NonpersistentLiveSession).len() != reason_code_text(C::ApiClientUnbound).len());
            assert(reason_code_text(C::NonpersistentLiveSession).len() != reason_code_text(C::InvalidEnterMode).len());
            assert(reason_code_text(C::NonpersistentLiveSession).len() != reason_code_text(C::UnsupportedProfile).len());
            assert(reason_code_text(C::NonpersistentLiveSession).len() != reason_code_text(C::TargetOutOfScope).len());
            assert(reason_code_text(C::NonpersistentLiveSession).len() != reason_code_text(C::UnsupportedVersion).len());
            assert(reason_code_text(C::NonpersistentLiveSession).len() != reason_code_text(C::UnsupportedSession).len());
            assert(reason_code_text(C::NonpersistentLiveSession).len() != reason_code_text(C::UntrackedReadiness).len());
            assert(reason_code_text(C::NonpersistentLiveSession).len() != reason_code_text(C::RestoreInProgress).len());
            assert(reason_code_text(C::NonpersistentLiveSession).len() != reason_code_text(C::ApiBindingMismatch).len());
            assert(reason_code_text(C::NonpersistentLiveSession).len() != reason_code_text(C::InconsistentSession).len());
            assert(reason_code_text(C::NonpersistentLiveSession).len() != reason_code_text(C::IdempotencyConflict).len());
            assert(reason_code_text(C::NonpersistentLiveSession).len() != reason_code_text(C::TerminalStoreFailed).len());
            assert(reason_code_text(C::NonpersistentLiveSession).len() != reason_code_text(C::RequiredEnterFailed).len());
            assert(reason_code_text(C::NonpersistentLiveSession).len() != reason_code_text(C::RootIdentityInvalid).len());
            assert(reason_code_text(C::NonpersistentLiveSession).len() != reason_code_text(C::InvalidSessionToken).len());
            assert(reason_code_text(C::NonpersistentLiveSession).len() != reason_code_text(C::TargetIsCoordinator).len());
            assert(reason_code_text(C::NonpersistentLiveSession).len() != reason_code_text(C::RedundantEnterFailed).len());
            assert(reason_code_text(C::NonpersistentLiveSession).len() != reason_code_text(C::SessionTokenRequired).len());
            assert(reason_code_text(C::NonpersistentLiveSession).len() != reason_code_text(C::SenderNotCoordinator).len());
            assert(reason_code_text(C::NonpersistentLiveSession).len() != reason_code_text(C::SenderIdentityInvalid).len());
            assert(reason_code_text(C::NonpersistentLiveSession).len() != reason_code_text(C::SenderSessionNotLive).len());
            assert(reason_code_text(C::NonpersistentLiveSession).len() != reason_code_text(C::AmbiguousSessionToken).len());
            assert(reason_code_text(C::NonpersistentLiveSession).len() != reason_code_text(C::BoundaryMetadataFailed).len());
            assert(reason_code_text(C::NonpersistentLiveSession).len() != reason_code_text(C::SenderBackendNotLocal).len());
            assert(reason_code_text(C::NonpersistentLiveSession).len() != reason_code_text(C::RuntimeActuationOrphan).len());
            assert(reason_code_text(C::NonpersistentLiveSession).len() != reason_code_text(C::FinalRevalidationFailed).len());
        },
        C::DaemonRestartAfterActuation => {
            assert(reason_code_text(C::DaemonRestartAfterActuation).len() != reason_code_text(C::Busy).len());
            assert(reason_code_text(C::DaemonRestartAfterActuation).len() != reason_code_text(C::Expired).len());
            assert(reason_code_text(C::DaemonRestartAfterActuation).len() != reason_code_text(C::InvalidId).len());
            assert(reason_code_text(C::DaemonRestartAfterActuation).len() != reason_code_text(C::LeaseLost).len());
            assert(reason_code_text(C::DaemonRestartAfterActuation).len() != reason_code_text(C::UnsafePath).len());
            assert(reason_code_text(C::DaemonRestartAfterActuation).len() != reason_code_text(C::SessionRace).len());
            assert(reason_code_text(C::DaemonRestartAfterActuation).len() != reason_code_text(C::InvalidText).len());
            assert(reason_code_text(C::DaemonRestartAfterActuation).len() != reason_code_text(C::MixedPayload).len());
            assert(reason_code_text(C::DaemonRestartAfterActuation).len() != reason_code_text(C::InvalidNonce).len());
            assert(reason_code_text(C::DaemonRestartAfterActuation).len() != reason_code_text(C::StoreCorrupt).len());
            assert(reason_code_text(C::DaemonRestartAfterActuation).len() != reason_code_text(C::InvalidTarget).len());
            assert(reason_code_text(C::DaemonRestartAfterActuation).len() != reason_code_text(C::StoreTransient).len());
            assert(reason_code_text(C::DaemonRestartAfterActuation).len() != reason_code_text(C::ResizeUnsettled).len());
            assert(reason_code_text(C::DaemonRestartAfterActuation).len() != reason_code_text(C::ApiClientStale).len());
            assert(reason_code_text(C::DaemonRestartAfterActuation).len() != reason_code_text(C::InvalidEnvelope).len());
            assert(reason_code_text(C::DaemonRestartAfterActuation).len() != reason_code_text(C::CapacityExceeded).len());
            assert(reason_code_text(C::DaemonRestartAfterActuation).len() != reason_code_text(C::AuthorityChanged).len());
            assert(reason_code_text(C::DaemonRestartAfterActuation).len() != reason_code_text(C::TextWriteFailed).len());
            assert(reason_code_text(C::DaemonRestartAfterActuation).len() != reason_code_text(C::SpawnFailedSafe).len());
            assert(reason_code_text(C::DaemonRestartAfterActuation).len() != reason_code_text(C::PayloadTooLarge).len());
            assert(reason_code_text(C::DaemonRestartAfterActuation).len() != reason_code_text(C::InvalidTimestamp).len());
            assert(reason_code_text(C::DaemonRestartAfterActuation).len() != reason_code_text(C::TargetNotMember).len());
            assert(reason_code_text(C::DaemonRestartAfterActuation).len() != reason_code_text(C::PurgeInProgress).len());
            assert(reason_code_text(C::DaemonRestartAfterActuation).len() != reason_code_text(C::ReadinessTimeout).len());
            assert(reason_code_text(C::DaemonRestartAfterActuation).len() != reason_code_text(C::ArtifactUnclaimed).len());
            assert(reason_code_text(C::DaemonRestartAfterActuation).len() != reason_code_text(C::ApiScopeRequired).len());
            assert(reason_code_text(C::DaemonRestartAfterActuation).len() != reason_code_text(C::ApiClientUnbound).len());
            assert(reason_code_text(C::DaemonRestartAfterActuation).len() != reason_code_text(C::InvalidEnterMode).len());
            assert(reason_code_text(C::DaemonRestartAfterActuation).len() != reason_code_text(C::UnsupportedProfile).len());
            assert(reason_code_text(C::DaemonRestartAfterActuation).len() != reason_code_text(C::TargetOutOfScope).len());
            assert(reason_code_text(C::DaemonRestartAfterActuation).len() != reason_code_text(C::UnsupportedVersion).len());
            assert(reason_code_text(C::DaemonRestartAfterActuation).len() != reason_code_text(C::UnsupportedSession).len());
            assert(reason_code_text(C::DaemonRestartAfterActuation).len() != reason_code_text(C::UntrackedReadiness).len());
            assert(reason_code_text(C::DaemonRestartAfterActuation).len() != reason_code_text(C::RestoreInProgress).len());
            assert(reason_code_text(C::DaemonRestartAfterActuation).len() != reason_code_text(C::ApiBindingMismatch).len());
            assert(reason_code_text(C::DaemonRestartAfterActuation).len() != reason_code_text(C::InconsistentSession).len());
            assert(reason_code_text(C::DaemonRestartAfterActuation).len() != reason_code_text(C::IdempotencyConflict).len());
            assert(reason_code_text(C::DaemonRestartAfterActuation).len() != reason_code_text(C::TerminalStoreFailed).len());
            assert(reason_code_text(C::DaemonRestartAfterActuation).len() != reason_code_text(C::RequiredEnterFailed).len());
            assert(reason_code_text(C::DaemonRestartAfterActuation).len() != reason_code_text(C::RootIdentityInvalid).len());
            assert(reason_code_text(C::DaemonRestartAfterActuation).len() != reason_code_text(C::InvalidSessionToken).len());
            assert(reason_code_text(C::DaemonRestartAfterActuation).len() != reason_code_text(C::TargetIsCoordinator).len());
            assert(reason_code_text(C::DaemonRestartAfterActuation).len() != reason_code_text(C::RedundantEnterFailed).len());
            assert(reason_code_text(C::DaemonRestartAfterActuation).len() != reason_code_text(C::SessionTokenRequired).len());
            assert(reason_code_text(C::DaemonRestartAfterActuation).len() != reason_code_text(C::SenderNotCoordinator).len());
            assert(reason_code_text(C::DaemonRestartAfterActuation).len() != reason_code_text(C::SenderIdentityInvalid).len());
            assert(reason_code_text(C::DaemonRestartAfterActuation).len() != reason_code_text(C::SenderSessionNotLive).len());
            assert(reason_code_text(C::DaemonRestartAfterActuation).len() != reason_code_text(C::AmbiguousSessionToken).len());
            assert(reason_code_text(C::DaemonRestartAfterActuation).len() != reason_code_text(C::BoundaryMetadataFailed).len());
            assert(reason_code_text(C::DaemonRestartAfterActuation).len() != reason_code_text(C::SenderBackendNotLocal).len());
            assert(reason_code_text(C::DaemonRestartAfterActuation).len() != reason_code_text(C::RuntimeActuationOrphan).len());
            assert(reason_code_text(C::DaemonRestartAfterActuation).len() != reason_code_text(C::FinalRevalidationFailed).len());
            assert(reason_code_text(C::DaemonRestartAfterActuation).len() != reason_code_text(C::NonpersistentLiveSession).len());
        },
    }
}

/// Distinct reason codes are reported by distinct texts.
pub proof fn lemma_reason_codes_distinct(a: C, b: C)
    ensures
        reason_code_text(a) == reason_code_text(b) ==> a == b,
{
    lemma_text_names_code(a);
    lemma_text_names_code(b);
}

} // verus!
