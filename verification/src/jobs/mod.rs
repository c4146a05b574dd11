//! The jobs of the service: for each, the `lms` arguments that it runs and,
//! where the job checks it, what it makes of the output.

pub mod list;
pub mod load;
pub mod server;
pub mod status;
pub mod unload;

use vstd::prelude::*;

verus! {

/// Job that loads a model.
pub const LOAD_MODEL_JOB_ID: u8 = 0;

/// Job that unloads one model or all of them.
pub const UNLOAD_MODEL_JOB_ID: u8 = 1;

/// Job that lists the downloaded models.
pub const LIST_MODELS_JOB_ID: u8 = 2;

/// Job that lists the loaded models.
pub const LIST_LOADED_MODELS_JOB_ID: u8 = 3;

/// Job that starts the local inference server.
pub const START_API_JOB_ID: u8 = 4;

/// Job that stops the local inference server.
pub const STOP_API_JOB_ID: u8 = 5;

/// Job that reports the status of LM Studio.
pub const STATUS_JOB_ID: u8 = 6;

} // verus!
