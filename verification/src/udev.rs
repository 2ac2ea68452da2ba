//! Discovery of display outputs: from a device's connectors, encoders and CRTCs
//! to the set of live outputs, and the lifecycle of the devices that own them.

pub mod manager;
pub mod registry;
pub mod resources;
pub mod scan;

pub use self::manager::{CleanupStep, SessionFd, UdevOutputManager};
pub use self::registry::{DeviceState, GpuDevice, Rescan, Teardown, UdevHandlerImpl};
pub use self::resources::{Candidate, Connector, ConnectorState, DrmResources, Encoder};
pub use self::scan::{ConnectorScan, OutputMap, UdevOutputManagerHandler};
