//! The status codes of the runtime, and the errors that the failing ones
//! become. Each family of calls has its own closed set of codes, one of which
//! reports success; every other code is a failure and is handed on under its
//! own name, none being added or merged.

use vstd::prelude::*;

verus! {

/// The status that the runtime reports for an overlay call.
#[derive(Debug, Clone, Copy, PartialEq, Eq, Structural)]
pub enum OverlayErrorCode {
    NoError,
    UnknownOverlay,
    InvalidHandle,
    PermissionDenied,
    OverlayLimitExceeded,
    WrongVisibilityType,
    KeyTooLong,
    NameTooLong,
    KeyInUse,
    WrongTransformType,
    InvalidTrackedDevice,
    InvalidParameter,
    ThumbnailCantBeDestroyed,
    ArrayTooSmall,
    RequestFailed,
    InvalidTexture,
    UnableToLoadFile,
    KeyboardAlreadyInUse,
    NoNeighbor,
    TooManyMaskPrimitives,
    BadMaskPrimitive,
    TextureAlreadyLocked,
    TextureNotLocked,
    TextureLockCapacityReached,
    TimedOut,
}

impl OverlayErrorCode {
    /// The name of the status.
    pub open spec fn name(self) -> Seq<char> {
        match self {
            OverlayErrorCode::NoError => "None"@,
            OverlayErrorCode::UnknownOverlay => "UnknownOverlay"@,
            OverlayErrorCode::InvalidHandle => "InvalidHandle"@,
            OverlayErrorCode::PermissionDenied => "PermissionDenied"@,
            OverlayErrorCode::OverlayLimitExceeded => "OverlayLimitExceeded"@,
            OverlayErrorCode::WrongVisibilityType => "WrongVisibilityType"@,
            OverlayErrorCode::KeyTooLong => "KeyTooLong"@,
            OverlayErrorCode::NameTooLong => "NameTooLong"@,
            OverlayErrorCode::KeyInUse => "KeyInUse"@,
            OverlayErrorCode::WrongTransformType => "WrongTransformType"@,
            OverlayErrorCode::InvalidTrackedDevice => "InvalidTrackedDevice"@,
            OverlayErrorCode::InvalidParameter => "InvalidParameter"@,
            OverlayErrorCode::ThumbnailCantBeDestroyed => "ThumbnailCantBeDestroyed"@,
            OverlayErrorCode::ArrayTooSmall => "ArrayTooSmall"@,
            OverlayErrorCode::RequestFailed => "RequestFailed"@,
            OverlayErrorCode::InvalidTexture => "InvalidTexture"@,
            OverlayErrorCode::UnableToLoadFile => "UnableToLoadFile"@,
            OverlayErrorCode::KeyboardAlreadyInUse => "KeyboardAlreadyInUse"@,
            OverlayErrorCode::NoNeighbor => "NoNeighbor"@,
            OverlayErrorCode::TooManyMaskPrimitives => "TooManyMaskPrimitives"@,
            OverlayErrorCode::BadMaskPrimitive => "BadMaskPrimitive"@,
            OverlayErrorCode::TextureAlreadyLocked => "TextureAlreadyLocked"@,
            OverlayErrorCode::TextureNotLocked => "TextureNotLocked"@,
            OverlayErrorCode::TextureLockCapacityReached => "TextureLockCapacityReached"@,
            OverlayErrorCode::TimedOut => "TimedOut"@,
        }
    }
}

/// A failure of an overlay call: a status other than `NoError`, when made by `new`.
#[derive(Debug, Clone, Copy, PartialEq, Eq, Structural)]
pub struct EVROverlayError(OverlayErrorCode);

impl View for EVROverlayError {
    type V = OverlayErrorCode;

    /// The status that the error holds.
    closed spec fn view(&self) -> OverlayErrorCode {
        self.0
    }
}

impl EVROverlayError {
    /// Turns a status into a result: `Ok` for `NoError`, and for every other
    /// status the error that holds it.
    pub fn new(err: OverlayErrorCode) -> (r: Result<(), Self>)
        ensures
            r is Ok <==> err == OverlayErrorCode::NoError,
            r matches Err(e) ==> e@ == err,
    {
        if err == OverlayErrorCode::NoError {
            Ok(())
        } else {
            Err(Self(err))
        }
    }

    /// The name of the status that the error holds.
    pub fn description(&self) -> (r: &'static str)
        ensures
            r@ == self@.name(),
    {
        match self.0 {
            OverlayErrorCode::NoError => "None",
            OverlayErrorCode::UnknownOverlay => "UnknownOverlay",
            OverlayErrorCode::InvalidHandle => "InvalidHandle",
            OverlayErrorCode::PermissionDenied => "PermissionDenied",
            OverlayErrorCode::OverlayLimitExceeded => "OverlayLimitExceeded",
            OverlayErrorCode::WrongVisibilityType => "WrongVisibilityType",
            OverlayErrorCode::KeyTooLong => "KeyTooLong",
            OverlayErrorCode::NameTooLong => "NameTooLong",
            OverlayErrorCode::KeyInUse => "KeyInUse",
            OverlayErrorCode::WrongTransformType => "WrongTransformType",
            OverlayErrorCode::InvalidTrackedDevice => "InvalidTrackedDevice",
            OverlayErrorCode::InvalidParameter => "InvalidParameter",
            OverlayErrorCode::ThumbnailCantBeDestroyed => "ThumbnailCantBeDestroyed",
            OverlayErrorCode::ArrayTooSmall => "ArrayTooSmall",
            OverlayErrorCode::RequestFailed => "RequestFailed",
            OverlayErrorCode::InvalidTexture => "InvalidTexture",
            OverlayErrorCode::UnableToLoadFile => "UnableToLoadFile",
            OverlayErrorCode::KeyboardAlreadyInUse => "KeyboardAlreadyInUse",
            OverlayErrorCode::NoNeighbor => "NoNeighbor",
            OverlayErrorCode::TooManyMaskPrimitives => "TooManyMaskPrimitives",
            OverlayErrorCode::BadMaskPrimitive => "BadMaskPrimitive",
            OverlayErrorCode::TextureAlreadyLocked => "TextureAlreadyLocked",
            OverlayErrorCode::TextureNotLocked => "TextureNotLocked",
            OverlayErrorCode::TextureLockCapacityReached => "TextureLockCapacityReached",
            OverlayErrorCode::TimedOut => "TimedOut",
        }
    }

    /// The status that the error holds.
    pub fn inner(&self) -> (r: OverlayErrorCode)
        ensures
            r == self@,
    {
        self.0
    }
}

/// The status that the runtime reports for a query of a device property.
#[derive(Debug, Clone, Copy, PartialEq, Eq, Structural)]
pub enum TrackedPropertyErrorCode {
    Success,
    WrongDataType,
    WrongDeviceClass,
    BufferTooSmall,
    UnknownProperty,
    InvalidDevice,
    CouldNotContactServer,
    ValueNotProvidedByDevice,
    StringExceedsMaximumLength,
    NotYetAvailable,
    PermissionDenied,
    InvalidOperation,
    CannotWriteToWildcards,
    IPCReadFailure,
    OutOfMemory,
    InvalidContainer,
}

impl TrackedPropertyErrorCode {
    /// The name of the status.
    pub open spec fn name(self) -> Seq<char> {
        match self {
            TrackedPropertyErrorCode::Success => "Success"@,
            TrackedPropertyErrorCode::WrongDataType => "WrongDataType"@,
            TrackedPropertyErrorCode::WrongDeviceClass => "WrongDeviceClass"@,
            TrackedPropertyErrorCode::BufferTooSmall => "BufferTooSmall"@,
            TrackedPropertyErrorCode::UnknownProperty => "UnknownProperty"@,
            TrackedPropertyErrorCode::InvalidDevice => "InvalidDevice"@,
            TrackedPropertyErrorCode::CouldNotContactServer => "CouldNotContactServer"@,
            TrackedPropertyErrorCode::ValueNotProvidedByDevice => "ValueNotProvidedByDevice"@,
            TrackedPropertyErrorCode::StringExceedsMaximumLength => "StringExceedsMaximumLength"@,
            TrackedPropertyErrorCode::NotYetAvailable => "NotYetAvailable"@,
            TrackedPropertyErrorCode::PermissionDenied => "PermissionDenied"@,
            TrackedPropertyErrorCode::InvalidOperation => "InvalidOperation"@,
            TrackedPropertyErrorCode::CannotWriteToWildcards => "CannotWriteToWildcards"@,
            TrackedPropertyErrorCode::IPCReadFailure => "IPCReadFailure"@,
            TrackedPropertyErrorCode::OutOfMemory => "OutOfMemory"@,
            TrackedPropertyErrorCode::InvalidContainer => "InvalidContainer"@,
        }
    }
}

/// A failure of a query of a device property: a status other than `Success`, when made by `new`.
#[derive(Debug, Clone, Copy, PartialEq, Eq, Structural)]
pub struct ETrackedPropertyError(TrackedPropertyErrorCode);

impl View for ETrackedPropertyError {
    type V = TrackedPropertyErrorCode;

    /// The status that the error holds.
    closed spec fn view(&self) -> TrackedPropertyErrorCode {
        self.0
    }
}

impl ETrackedPropertyError {
    /// Turns a status into a result: `Ok` for `Success`, and for every other
    /// status the error that holds it.
    pub fn new(err: TrackedPropertyErrorCode) -> (r: Result<(), Self>)
        ensures
            r is Ok <==> err == TrackedPropertyErrorCode::Success,
            r matches Err(e) ==> e@ == err,
    {
        if err == TrackedPropertyErrorCode::Success {
            Ok(())
        } else {
            Err(Self(err))
        }
    }

    /// The name of the status that the error holds.
    pub fn description(&self) -> (r: &'static str)
        ensures
            r@ == self@.name(),
    {
        match self.0 {
            TrackedPropertyErrorCode::Success => "Success",
            TrackedPropertyErrorCode::WrongDataType => "WrongDataType",
            TrackedPropertyErrorCode::WrongDeviceClass => "WrongDeviceClass",
            TrackedPropertyErrorCode::BufferTooSmall => "BufferTooSmall",
            TrackedPropertyErrorCode::UnknownProperty => "UnknownProperty",
            TrackedPropertyErrorCode::InvalidDevice => "InvalidDevice",
            TrackedPropertyErrorCode::CouldNotContactServer => "CouldNotContactServer",
            TrackedPropertyErrorCode::ValueNotProvidedByDevice => "ValueNotProvidedByDevice",
            TrackedPropertyErrorCode::StringExceedsMaximumLength => "StringExceedsMaximumLength",
            TrackedPropertyErrorCode::NotYetAvailable => "NotYetAvailable",
            TrackedPropertyErrorCode::PermissionDenied => "PermissionDenied",
            TrackedPropertyErrorCode::InvalidOperation => "InvalidOperation",
            TrackedPropertyErrorCode::CannotWriteToWildcards => "CannotWriteToWildcards",
            TrackedPropertyErrorCode::IPCReadFailure => "IPCReadFailure",
            TrackedPropertyErrorCode::OutOfMemory => "OutOfMemory",
            TrackedPropertyErrorCode::InvalidContainer => "InvalidContainer",
        }
    }

    /// The status that the error holds.
    pub fn inner(&self) -> (r: TrackedPropertyErrorCode)
        ensures
            r == self@,
    {
        self.0
    }
}

impl From<ETrackedPropertyError> for TrackedPropertyErrorCode {
    fn from(err: ETrackedPropertyError) -> (r: Self) {
        err.0
    }
}

impl vstd::std_specs::convert::FromSpecImpl<ETrackedPropertyError> for TrackedPropertyErrorCode {
    open spec fn obeys_from_spec() -> bool {
        true
    }

    open spec fn from_spec(err: ETrackedPropertyError) -> Self {
        err@
    }
}

/// The status that the runtime reports for an input call.
#[derive(Debug, Clone, Copy, PartialEq, Eq, Structural)]
pub enum InputErrorCode {
    NoError,
    NameNotFound,
    WrongType,
    InvalidHandle,
    InvalidParam,
    NoSteam,
    MaxCapacityReached,
    IPCError,
    NoActiveActionSet,
    InvalidDevice,
    InvalidSkeleton,
    InvalidBoneCount,
    InvalidCompressedData,
    NoData,
    BufferTooSmall,
    MismatchedActionManifest,
    MissingSkeletonData,
    InvalidBoneIndex,
    InvalidPriority,
    PermissionDenied,
    InvalidRenderModel,
}

impl InputErrorCode {
    /// The name of the status.
    pub open spec fn name(self) -> Seq<char> {
        match self {
            InputErrorCode::NoError => "None"@,
            InputErrorCode::NameNotFound => "NameNotFound"@,
            InputErrorCode::WrongType => "WrongType"@,
            InputErrorCode::InvalidHandle => "InvalidHandle"@,
            InputErrorCode::InvalidParam => "InvalidParam"@,
            InputErrorCode::NoSteam => "NoSteam"@,
            InputErrorCode::MaxCapacityReached => "MaxCapacityReached"@,
            InputErrorCode::IPCError => "IPCError"@,
            InputErrorCode::NoActiveActionSet => "NoActiveActionSet"@,
            InputErrorCode::InvalidDevice => "InvalidDevice"@,
            InputErrorCode::InvalidSkeleton => "InvalidSkeleton"@,
            InputErrorCode::InvalidBoneCount => "InvalidBoneCount"@,
            InputErrorCode::InvalidCompressedData => "InvalidCompressedData"@,
            InputErrorCode::NoData => "NoData"@,
            InputErrorCode::BufferTooSmall => "BufferTooSmall"@,
            InputErrorCode::MismatchedActionManifest => "MismatchedActionManifest"@,
            InputErrorCode::MissingSkeletonData => "MissingSkeletonData"@,
            InputErrorCode::InvalidBoneIndex => "InvalidBoneIndex"@,
            InputErrorCode::InvalidPriority => "InvalidPriority"@,
            InputErrorCode::PermissionDenied => "PermissionDenied"@,
            InputErrorCode::InvalidRenderModel => "InvalidRenderModel"@,
        }
    }
}

/// A failure of an input call: a status other than `NoError`, when made by `new`.
#[derive(Debug, Clone, Copy, PartialEq, Eq, Structural)]
pub struct EVRInputError(InputErrorCode);

impl View for EVRInputError {
    type V = InputErrorCode;

    /// The status that the error holds.
    closed spec fn view(&self) -> InputErrorCode {
        self.0
    }
}

impl EVRInputError {
    /// Turns a status into a result: `Ok` for `NoError`, and for every other
    /// status the error that holds it.
    pub fn new(err: InputErrorCode) -> (r: Result<(), Self>)
        ensures
            r is Ok <==> err == InputErrorCode::NoError,
            r matches Err(e) ==> e@ == err,
    {
        if err == InputErrorCode::NoError {
            Ok(())
        } else {
            Err(Self(err))
        }
    }

    /// The name of the status that the error holds.
    pub fn description(&self) -> (r: &'static str)
        ensures
            r@ == self@.name(),
    {
        match self.0 {
            InputErrorCode::NoError => "None",
            InputErrorCode::NameNotFound => "NameNotFound",
            InputErrorCode::WrongType => "WrongType",
            InputErrorCode::InvalidHandle => "InvalidHandle",
            InputErrorCode::InvalidParam => "InvalidParam",
            InputErrorCode::NoSteam => "NoSteam",
            InputErrorCode::MaxCapacityReached => "MaxCapacityReached",
            InputErrorCode::IPCError => "IPCError",
            InputErrorCode::NoActiveActionSet => "NoActiveActionSet",
            InputErrorCode::InvalidDevice => "InvalidDevice",
            InputErrorCode::InvalidSkeleton => "InvalidSkeleton",
            InputErrorCode::InvalidBoneCount => "InvalidBoneCount",
            InputErrorCode::InvalidCompressedData => "InvalidCompressedData",
            InputErrorCode::NoData => "NoData",
            InputErrorCode::BufferTooSmall => "BufferTooSmall",
            InputErrorCode::MismatchedActionManifest => "MismatchedActionManifest",
            InputErrorCode::MissingSkeletonData => "MissingSkeletonData",
            InputErrorCode::InvalidBoneIndex => "InvalidBoneIndex",
            InputErrorCode::InvalidPriority => "InvalidPriority",
            InputErrorCode::PermissionDenied => "PermissionDenied",
            InputErrorCode::InvalidRenderModel => "InvalidRenderModel",
        }
    }

    /// The status that the error holds.
    pub fn inner(&self) -> (r: InputErrorCode)
        ensures
            r == self@,
    {
        self.0
    }
}

impl From<InputErrorCode> for EVRInputError {
    fn from(err: InputErrorCode) -> (r: Self)
        ensures
            r@ == err,
    {
        Self(err)
    }
}

impl vstd::std_specs::convert::FromSpecImpl<InputErrorCode> for EVRInputError {
    open spec fn obeys_from_spec() -> bool {
        true
    }

    closed spec fn from_spec(err: InputErrorCode) -> Self {
        Self(err)
    }
}

impl From<EVRInputError> for InputErrorCode {
    fn from(err: EVRInputError) -> (r: Self) {
        err.0
    }
}

impl vstd::std_specs::convert::FromSpecImpl<EVRInputError> for InputErrorCode {
    open spec fn obeys_from_spec() -> bool {
        true
    }

    open spec fn from_spec(err: EVRInputError) -> Self {
        err@
    }
}

/// The status that the runtime reports for a compositor call.
#[derive(Debug, Clone, Copy, PartialEq, Eq, Structural)]
pub enum CompositorErrorCode {
    NoError,
    RequestFailed,
    IncompatibleVersion,
    DoNotHaveFocus,
    InvalidTexture,
    IsNotSceneApplication,
    TextureIsOnWrongDevice,
    TextureUsesUnsupportedFormat,
    SharedTexturesNotSupported,
    IndexOutOfRange,
    AlreadySubmitted,
    AlreadySet,
    InvalidBounds,
}

impl CompositorErrorCode {
    /// The name of the status.
    pub open spec fn name(self) -> Seq<char> {
        match self {
            CompositorErrorCode::NoError => "None"@,
            CompositorErrorCode::RequestFailed => "RequestFailed"@,
            CompositorErrorCode::IncompatibleVersion => "IncompatibleVersion"@,
            CompositorErrorCode::DoNotHaveFocus => "DoNotHaveFocus"@,
            CompositorErrorCode::InvalidTexture => "InvalidTexture"@,
            CompositorErrorCode::IsNotSceneApplication => "IsNotSceneApplication"@,
            CompositorErrorCode::TextureIsOnWrongDevice => "TextureIsOnWrongDevice"@,
            CompositorErrorCode::TextureUsesUnsupportedFormat => "TextureUsesUnsupportedFormat"@,
            CompositorErrorCode::SharedTexturesNotSupported => "SharedTexturesNotSupported"@,
            CompositorErrorCode::IndexOutOfRange => "IndexOutOfRange"@,
            CompositorErrorCode::AlreadySubmitted => "AlreadySubmitted"@,
            CompositorErrorCode::AlreadySet => "AlreadySet"@,
            CompositorErrorCode::InvalidBounds => "InvalidBounds"@,
        }
    }
}

/// A failure of a compositor call: a status other than `NoError`, when made by `new`.
#[derive(Debug, Clone, Copy, PartialEq, Eq, Structural)]
pub struct EVRCompositorError(CompositorErrorCode);

impl View for EVRCompositorError {
    type V = CompositorErrorCode;

    /// The status that the error holds.
    closed spec fn view(&self) -> CompositorErrorCode {
        self.0
    }
}

impl EVRCompositorError {
    /// Turns a status into a result: `Ok` for `NoError`, and for every other
    /// status the error that holds it.
    pub fn new(err: CompositorErrorCode) -> (r: Result<(), Self>)
        ensures
            r is Ok <==> err == CompositorErrorCode::NoError,
            r matches Err(e) ==> e@ == err,
    {
        if err == CompositorErrorCode::NoError {
            Ok(())
        } else {
            Err(Self(err))
        }
    }

    /// The name of the status that the error holds.
    pub fn description(&self) -> (r: &'static str)
        ensures
            r@ == self@.name(),
    {
        match self.0 {
            CompositorErrorCode::NoError => "None",
            CompositorErrorCode::RequestFailed => "RequestFailed",
            CompositorErrorCode::IncompatibleVersion => "IncompatibleVersion",
            CompositorErrorCode::DoNotHaveFocus => "DoNotHaveFocus",
            CompositorErrorCode::InvalidTexture => "InvalidTexture",
            CompositorErrorCode::IsNotSceneApplication => "IsNotSceneApplication",
            CompositorErrorCode::TextureIsOnWrongDevice => "TextureIsOnWrongDevice",
            CompositorErrorCode::TextureUsesUnsupportedFormat => "TextureUsesUnsupportedFormat",
            CompositorErrorCode::SharedTexturesNotSupported => "SharedTexturesNotSupported",
            CompositorErrorCode::IndexOutOfRange => "IndexOutOfRange",
            CompositorErrorCode::AlreadySubmitted => "AlreadySubmitted",
            CompositorErrorCode::AlreadySet => "AlreadySet",
            CompositorErrorCode::InvalidBounds => "InvalidBounds",
        }
    }

    /// The status that the error holds.
    pub fn inner(&self) -> (r: CompositorErrorCode)
        ensures
            r == self@,
    {
        self.0
    }
}

impl From<EVRCompositorError> for CompositorErrorCode {
    fn from(err: EVRCompositorError) -> (r: Self) {
        err.0
    }
}

impl vstd::std_specs::convert::FromSpecImpl<EVRCompositorError> for CompositorErrorCode {
    open spec fn obeys_from_spec() -> bool {
        true
    }

    open spec fn from_spec(err: EVRCompositorError) -> Self {
        err@
    }
}

/// The status that the runtime reports for an application call.
#[derive(Debug, Clone, Copy, PartialEq, Eq, Structural)]
pub enum ApplicationErrorCode {
    NoError,
    AppKeyAlreadyExists,
    NoManifest,
    NoApplication,
    InvalidIndex,
    UnknownApplication,
    IPCFailed,
    ApplicationAlreadyRunning,
    InvalidManifest,
    InvalidApplication,
    LaunchFailed,
    ApplicationAlreadyStarting,
    LaunchInProgress,
    OldApplicationQuitting,
    TransitionAborted,
    IsTemplate,
    SteamVRIsExiting,
    BufferTooSmall,
    PropertyNotSet,
    UnknownProperty,
    InvalidParameter,
    NotImplemented,
}

impl ApplicationErrorCode {
    /// The name of the status.
    pub open spec fn name(self) -> Seq<char> {
        match self {
            ApplicationErrorCode::NoError => "None"@,
            ApplicationErrorCode::AppKeyAlreadyExists => "AppKeyAlreadyExists"@,
            ApplicationErrorCode::NoManifest => "NoManifest"@,
            ApplicationErrorCode::NoApplication => "NoApplication"@,
            ApplicationErrorCode::InvalidIndex => "InvalidIndex"@,
            ApplicationErrorCode::UnknownApplication => "UnknownApplication"@,
            ApplicationErrorCode::IPCFailed => "IPCFailed"@,
            ApplicationErrorCode::ApplicationAlreadyRunning => "ApplicationAlreadyRunning"@,
            ApplicationErrorCode::InvalidManifest => "InvalidManifest"@,
            ApplicationErrorCode::InvalidApplication => "InvalidApplication"@,
            ApplicationErrorCode::LaunchFailed => "LaunchFailed"@,
            ApplicationErrorCode::ApplicationAlreadyStarting => "ApplicationAlreadyStarting"@,
            ApplicationErrorCode::LaunchInProgress => "LaunchInProgress"@,
            ApplicationErrorCode::OldApplicationQuitting => "OldApplicationQuitting"@,
            ApplicationErrorCode::TransitionAborted => "TransitionAborted"@,
            ApplicationErrorCode::IsTemplate => "IsTemplate"@,
            ApplicationErrorCode::SteamVRIsExiting => "SteamVRIsExiting"@,
            ApplicationErrorCode::BufferTooSmall => "BufferTooSmall"@,
            ApplicationErrorCode::PropertyNotSet => "PropertyNotSet"@,
            ApplicationErrorCode::UnknownProperty => "UnknownProperty"@,
            ApplicationErrorCode::InvalidParameter => "InvalidParameter"@,
            ApplicationErrorCode::NotImplemented => "NotImplemented"@,
        }
    }
}

/// A failure of an application call: a status other than `NoError`, when made by `new`.
#[derive(Debug, Clone, Copy, PartialEq, Eq, Structural)]
pub struct EVRApplicationError(ApplicationErrorCode);

impl View for EVRApplicationError {
    type V = ApplicationErrorCode;

    /// The status that the error holds.
    closed spec fn view(&self) -> ApplicationErrorCode {
        self.0
    }
}

impl EVRApplicationError {
    /// Turns a status into a result: `Ok` for `NoError`, and for every other
    /// status the error that holds it.
    pub fn new(err: ApplicationErrorCode) -> (r: Result<(), Self>)
        ensures
            r is Ok <==> err == ApplicationErrorCode::NoError,
            r matches Err(e) ==> e@ == err,
    {
        if err == ApplicationErrorCode::NoError {
            Ok(())
        } else {
            Err(Self(err))
        }
    }

    /// The name of the status that the error holds.
    pub fn description(&self) -> (r: &'static str)
        ensures
            r@ == self@.name(),
    {
        match self.0 {
            ApplicationErrorCode::NoError => "None",
            ApplicationErrorCode::AppKeyAlreadyExists => "AppKeyAlreadyExists",
            ApplicationErrorCode::NoManifest => "NoManifest",
            ApplicationErrorCode::NoApplication => "NoApplication",
            ApplicationErrorCode::InvalidIndex => "InvalidIndex",
            ApplicationErrorCode::UnknownApplication => "UnknownApplication",
            ApplicationErrorCode::IPCFailed => "IPCFailed",
            ApplicationErrorCode::ApplicationAlreadyRunning => "ApplicationAlreadyRunning",
            ApplicationErrorCode::InvalidManifest => "InvalidManifest",
            ApplicationErrorCode::InvalidApplication => "InvalidApplication",
            ApplicationErrorCode::LaunchFailed => "LaunchFailed",
            ApplicationErrorCode::ApplicationAlreadyStarting => "ApplicationAlreadyStarting",
            ApplicationErrorCode::LaunchInProgress => "LaunchInProgress",
            ApplicationErrorCode::OldApplicationQuitting => "OldApplicationQuitting",
            ApplicationErrorCode::TransitionAborted => "TransitionAborted",
            ApplicationErrorCode::IsTemplate => "IsTemplate",
            ApplicationErrorCode::SteamVRIsExiting => "SteamVRIsExiting",
            ApplicationErrorCode::BufferTooSmall => "BufferTooSmall",
            ApplicationErrorCode::PropertyNotSet => "PropertyNotSet",
            ApplicationErrorCode::UnknownProperty => "UnknownProperty",
            ApplicationErrorCode::InvalidParameter => "InvalidParameter",
            ApplicationErrorCode::NotImplemented => "NotImplemented",
        }
    }

    /// The status that the error holds.
    pub fn inner(&self) -> (r: ApplicationErrorCode)
        ensures
            r == self@,
    {
        self.0
    }
}

impl From<EVRApplicationError> for ApplicationErrorCode {
    fn from(err: EVRApplicationError) -> (r: Self) {
        err.0
    }
}

impl vstd::std_specs::convert::FromSpecImpl<EVRApplicationError> for ApplicationErrorCode {
    open spec fn obeys_from_spec() -> bool {
        true
    }

    open spec fn from_spec(err: EVRApplicationError) -> Self {
        err@
    }
}

} // verus!
