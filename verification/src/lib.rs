//! Bridge between a message broker and a transactional email provider.
//!
//! The library holds the verified core of the bridge: the template
//! registry built from configuration, the payload decoder, the
//! validator that checks a job message against its template's required
//! fields, the dispatch-outcome classifier, and the consumer worker's
//! state machine that turns every processing outcome into exactly one
//! acknowledgement decision.  Broker and provider I/O live outside the
//! library and drive it with plain values.

pub mod amqp;
pub mod config;
pub mod json;
pub mod log;
pub mod payload;
pub mod sendgrid;
pub mod text;
