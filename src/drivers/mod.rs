//! Drivers for the kernel's USB/IP modules, and the failures of writing to
//! their sysfs attributes.
use vstd::prelude::*;

pub mod host;
pub mod state;
pub mod vhci;

verus! {

/// The kinds of operating system error that binding and unbinding tell
/// apart.
#[derive(Debug, Clone, Copy, PartialEq, Eq, Structural)]
pub enum ErrnoKind {
    /// No such device (`ENODEV`).
    NoDevice,
    /// Invalid argument (`EINVAL`).
    InvalidArgument,
    /// Already exists (`EEXIST`).
    AlreadyExists,
    /// Any other error.
    Other,
}

/// Failure to write a sysfs attribute.
#[derive(Debug, Clone, PartialEq, Eq)]
pub enum SysfsIoError {
    PermissionDenied,
    DoesNotExist,
    Other { kind: ErrnoKind, message: String },
}

/// Failure to bind a driver to a device.
#[derive(Debug, Clone, PartialEq, Eq)]
pub enum DriverBindingError {
    Sysfs(SysfsIoError),
    /// The driver did not match, or the device does not exist.
    NoDevice,
    /// The device is bound to another driver.
    AlreadyBoundOther,
    /// The device is already bound to this driver.
    AlreadyBound,
}

/// Failure to unbind a driver from a device.
#[derive(Debug, Clone, PartialEq, Eq)]
pub enum DriverUnbindingError {
    Sysfs(SysfsIoError),
    /// The device does not exist.
    NoDevice,
    /// The device is not bound to this driver.
    NotBound,
}

impl DriverBindingError {
    /// What a failed write to a driver's `bind` attribute means.
    pub fn from_sysfs(e: SysfsIoError) -> (r: Self)
        ensures
            r == (match e {
                SysfsIoError::Other { kind: ErrnoKind::NoDevice, .. } => DriverBindingError::NoDevice,
                SysfsIoError::Other { kind: ErrnoKind::InvalidArgument, .. } => DriverBindingError::AlreadyBoundOther,
                SysfsIoError::Other { kind: ErrnoKind::AlreadyExists, .. } => DriverBindingError::AlreadyBound,
                _ => DriverBindingError::Sysfs(e),
            }),
    {
        match e {
            SysfsIoError::Other { kind: ErrnoKind::NoDevice, .. } => DriverBindingError::NoDevice,
            SysfsIoError::Other { kind: ErrnoKind::InvalidArgument, .. } => DriverBindingError::AlreadyBoundOther,
            SysfsIoError::Other { kind: ErrnoKind::AlreadyExists, .. } => DriverBindingError::AlreadyBound,
            _ => DriverBindingError::Sysfs(e),
        }
    }
}

impl DriverUnbindingError {
    /// What a failed write to a driver's `unbind` attribute means.
    pub fn from_sysfs(e: SysfsIoError) -> (r: Self)
        ensures
            r == (match e {
                SysfsIoError::Other { kind: ErrnoKind::NoDevice, .. } => DriverUnbindingError::NoDevice,
                SysfsIoError::Other { kind: ErrnoKind::InvalidArgument, .. } => DriverUnbindingError::NotBound,
                _ => DriverUnbindingError::Sysfs(e),
            }),
    {
        match e {
            SysfsIoError::Other { kind: ErrnoKind::NoDevice, .. } => DriverUnbindingError::NoDevice,
            SysfsIoError::Other { kind: ErrnoKind::InvalidArgument, .. } => DriverUnbindingError::NotBound,
            _ => DriverUnbindingError::Sysfs(e),
        }
    }
}

} // verus!
