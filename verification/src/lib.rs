//! Core logic of a sensor telemetry daemon: bounded sample history, trend
//! tracking over a reporting window, the worker's loop as a state machine,
//! and the plain-value halves of configuration, logging, notification and
//! export.

pub mod config;
pub mod export;
pub mod hardware;
pub mod history;
pub mod level;
pub mod logging;
pub mod notify;
pub mod period;
pub mod reading;
pub mod report;
pub mod sensor;
pub mod text;
pub mod trend;
pub mod worker;

pub use config::{cli, get_cfg, set_cfg, CliError, Config};
pub use export::{export_frame, EXPORT_HOST};
pub use hardware::{have_hw, HW1, HW2, TEST_DATA};
pub use history::{StateBuffer, MAX_ENTRIES};
pub use level::{get_level, LogLevel, DBG, ERR, INF, WAR};
pub use logging::{log_line, ulog};
pub use notify::{
    notify_outcome, notify_payload, notify_request, notify_result, response_ok, NotifyReply,
    NotifyRequest, NOTIFY_CHANNEL, NOTIFY_CONTENT_TYPE, NOTIFY_ENV_VAR, NOTIFY_URL,
};
pub use reading::{validate_f32, validate_f64};
pub use report::{header_line, notification_text, record_line};
pub use sensor::{SyntheticReading, SyntheticSensor, SYNTHETIC_SCALE, SYNTHETIC_TEMPERATURE};
pub use trend::{Trend, TrendAggregator, TrendState, Window};
pub use worker::{
    OutOfTurn, Phase, Schedule, SensorWorker, WorkerAction, WorkerEvent, NUM_MEASUREMENTS,
    NUM_RUNS, PERIOD,
};
