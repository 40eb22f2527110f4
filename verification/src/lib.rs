//! Sampling of a spot price: the decisions of the sampling run, of the
//! producers and the consumer of an aggregation, of the argument dispatcher
//! and of the reader, and the texts they emit.
//!
//! A price is a 64-bit binary floating-point number. This library carries it
//! as its bit pattern and never computes with it: a mean is handed out as the
//! samples and the divisor, and the caller forms the quotient.

pub mod aggregator;
pub mod args;
pub mod json;
pub mod report;
pub mod sample;
pub mod sampler;
pub mod source;
pub mod text;

pub use aggregator::{
    Accumulator, ConsumerAction, ProducerState, Termination, PRODUCERS, SAMPLE_DELAY_SECS,
    TIME_CAP_SECS,
};
pub use args::{parse_command, parse_count, parse_times, ArgError, Command};
pub use report::{
    cache_complete_line, distributed_complete_line, read_report, render_summary, ReadReport,
    CACHE_FILE,
};
pub use sample::Sample;
pub use sampler::{RunSummary, Sampler, SamplerAction};
pub use source::{
    quote_from, read_quote, read_response, DataFields, FetchError, Field, Quote, PRICE_URL,
};
