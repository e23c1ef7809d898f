//! A web-crawling framework: requests, responses, error handling, middleware,
//! scheduling slots and the decision logic of the crawl engine.

pub mod strmap;
pub mod web_url;
pub mod error;
pub mod request;
pub mod text;
pub mod countmap;
pub mod error_handler;
pub mod response;
pub mod stats;
pub mod config;
pub mod engine_core;
pub mod slot;
pub mod item;
pub mod spider;
pub mod signal;
pub mod monitoring;
pub mod pipeline;
pub mod utils;
pub mod downloader;
pub mod resource;
pub mod benchmark;
pub mod request_builder;
pub mod benchmark_spider;
pub mod pattern;
pub mod middleware;
pub mod mock;
pub mod mock_site;
pub mod benchmark_plan;
pub mod scrapy_project;
pub mod wrapper_order;
