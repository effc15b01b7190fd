//! Client logic for a local workflow agent and its cloud tier.

pub mod call;
pub mod client;
pub mod cloud;
pub mod cloud_models;
pub mod cloud_verbs;
pub mod decode;
pub mod discovery;
pub mod error;
pub mod files;
pub mod json;
pub mod members;
pub mod models;
pub mod operations;
pub mod outcomes;
pub mod page;
pub mod request;
pub mod resources;
pub mod retry;
pub mod routes;
pub mod sent;
pub mod settings;
pub mod sse;
pub mod streams;
pub mod text;
pub mod time;
pub mod watch;
pub mod webhook;
pub mod wire;

pub use call::{Call, Stamp};
pub use client::{WritAgent, WritAgentBuilder};
pub use cloud::{CloudClient, CloudClientBuilder, MapEntry, MapResult, ScrapeResult};
pub use cloud_models::{
    ChangeListOptions, CloudBuild, CloudBuildParams, CloudTier, KeylessQuota, MapCounts,
    MapOptions, RecentChange, ScrapeOptions,
};
pub use error::WritError;
pub use files::{file_slots, output_files, FileSlot, OutputFile};
pub use json::Json;
pub use models::{
    Brand, CancelOutcome, CrawlCancel, CrawlJob, CrawlStartParams, DatasetFormat, Extra,
    RunCompleted, RunEvent, RunFeedItem, Workflow,
};
pub use page::Page;
pub use request::{Method, Request};
pub use resources::RunOptions;
pub use retry::RetryPolicy;
pub use time::Duration;
pub use watch::WatchOptions;
