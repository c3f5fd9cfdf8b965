pub mod controller;
pub mod events;
pub mod guard;
pub mod simulator;

pub use controller::{InputController, InputControllerError, InputControllerOutcome};
pub use events::{InputEvent, KeystrokeBuffer, NavigationKey};
pub use guard::{GuardState, SyntheticInputGuard, SyntheticInputGuardToken};
pub use simulator::{
    ForwardedCall, GuardedInputSimulator, InputSimulationError, InputSimulator, RecordedInputAction,
    RecordingInputSimulator,
};
