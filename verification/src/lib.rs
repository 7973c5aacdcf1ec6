//! A type-safe façade over a publish-subscribe middleware's handle-based
//! native ABI.
//!
//! The native layer hands out entities as opaque integer handles, encodes
//! durations as sentinel-laden signed integers, reports outcomes as small
//! integers of which a fixed set mean failure, and configures delivery
//! through an opaque mutable policy block. The modules here turn that
//! C-style contract into sum-typed values with proved conversions:
//!
//! - [`Duration`]: the tri-state time value and its sentinel codec;
//! - [`Error`] and [`retcode_to_result`]: the closed failure-code set;
//! - [`History`], [`Durability`], [`Reliability`] and [`QoS`]: the policy
//!   values, their native encodings, and the builder over a policy block;
//! - [`Participant`] and [`Topic`]: the entity handles and the
//!   classification of the native creation calls' answers;
//! - [`marshal_name`] and [`marshal_names`]: the transient NUL-terminated
//!   buffers that names travel in.

mod duration;
mod error;
mod marshal;
mod participant;
mod qos;
mod topic;

pub use duration::{
    duration_from_text, duration_text, human_parse, human_text, lemma_ordering,
    lemma_raw_round_trip, lemma_value_round_trip, parsed_span, span_duration, span_value,
    Duration, ParseError, TextParse, DURATION_INFINITE, DURATION_INVALID,
};
pub use error::{
    is_failure_code, retcode_to_result, Error, RETCODE_ALREADY_DELETED, RETCODE_BAD_PARAMETER,
    RETCODE_ERROR, RETCODE_ILLEGAL_OPERATION, RETCODE_IMMUTABLE_POLICY,
    RETCODE_INCONSISTENT_POLICY, RETCODE_NOT_ALLOWED_BY_SECURITY, RETCODE_NOT_ENABLED,
    RETCODE_NO_DATA, RETCODE_OK, RETCODE_OUT_OF_RESOURCES, RETCODE_PRECONDITION_NOT_MET,
    RETCODE_TIMEOUT, RETCODE_UNSUPPORTED,
};
pub use marshal::{marshal_name, marshal_names};
pub use participant::{Participant, DOMAIN_DEFAULT};
pub use qos::{
    apply_setting, apply_settings, durability_from_raw_spec, durability_to_raw_spec,
    history_from_raw_spec, history_to_raw_spec, lemma_durability_round_trip,
    lemma_history_round_trip, lemma_reliability_round_trip, lemma_reset_equals_fresh,
    lemma_same_steps_same_state, qos_default_view, reliability_from_raw_spec,
    reliability_to_raw_spec, Durability, History, InvalidRawPolicy, QoS, QosView, Reliability,
    Setting, DURABILITY_PERSISTENT, DURABILITY_TRANSIENT, DURABILITY_TRANSIENT_LOCAL,
    DURABILITY_VOLATILE, HISTORY_KEEP_ALL, HISTORY_KEEP_LAST, RELIABILITY_BEST_EFFORT,
    RELIABILITY_RELIABLE,
};
pub use topic::Topic;
