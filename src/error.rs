use vstd::prelude::*;
use vstd::string::StringExecFns;

verus! {

/// Errors of the accelerator layer: the device was reclaimed by a process of
/// higher priority, or a lower-level device error carried as a message.
#[derive(Debug, Clone)]
pub enum GPUError {
    GPUTaken,
    Msg(String),
}

/// Short description of each kind of error.
pub open spec fn description_text(e: GPUError) -> Seq<char> {
    match e {
        GPUError::GPUTaken => "GPU taken by a high priority process!"@,
        GPUError::Msg(_) => "GPU related error happened!"@,
    }
}

/// The text shown for an error: the carried message, or else the description.
pub open spec fn message_text(e: GPUError) -> Seq<char> {
    match e {
        GPUError::GPUTaken => description_text(e),
        GPUError::Msg(m) => m@,
    }
}

impl GPUError {
    /// A short, fixed description of the kind of error.
    pub fn description(&self) -> (r: &'static str)
        ensures
            r@ == description_text(*self),
    {
        proof {
            reveal_strlit("GPU taken by a high priority process!");
            reveal_strlit("GPU related error happened!");
        }
        match self {
            GPUError::GPUTaken => "GPU taken by a high priority process!",
            GPUError::Msg(_) => "GPU related error happened!",
        }
    }

    /// The human-readable text of the error.
    pub fn message(&self) -> (r: String)
        ensures
            r@ == message_text(*self),
    {
        match self {
            GPUError::GPUTaken => String::from_str(self.description()),
            GPUError::Msg(m) => m.clone(),
        }
    }
}

} // verus!
