//! The wireless network: what its driver reports, in words, and when to connect again.
use vstd::prelude::*;
use crate::system::SystemState;
use crate::ticks;

verus! {

/// How a network authenticates its stations.
#[derive(Clone, Copy, PartialEq, Eq, Structural, Debug)]
pub enum AuthenticationMethod {
    Dpp,
    Open,
    Owe,
    WapiPersonal,
    Wep,
    Wpa,
    Wpa2Enterprise,
    Wpa2Personal,
    Wpa2Wpa3Enterprise,
    Wpa2Wpa3Personal,
    Wpa3EntSuiteB192Bit,
    Wpa3Enterprise,
    Wpa3ExtPsk,
    Wpa3ExtPskMixed,
    Wpa3Personal,
    WpaEnterprise,
    WpaWpa2Personal,
    /// A method without a name of its own.
    Other,
}

/// The name of a method in the log.
pub open spec fn authentication_name(method: AuthenticationMethod) -> Seq<char> {
    match method {
        AuthenticationMethod::Dpp => "Dpp"@,
        AuthenticationMethod::Open => "None"@,
        AuthenticationMethod::Owe => "Owe"@,
        AuthenticationMethod::WapiPersonal => "WapiPersonal"@,
        AuthenticationMethod::Wep => "Wep"@,
        AuthenticationMethod::Wpa => "Wpa"@,
        AuthenticationMethod::Wpa2Enterprise => "Wpa2Enterprise"@,
        AuthenticationMethod::Wpa2Personal => "Wpa2Personal"@,
        AuthenticationMethod::Wpa2Wpa3Enterprise => "Wpa2Wpa3Enterprise"@,
        AuthenticationMethod::Wpa2Wpa3Personal => "Wpa2Wpa3Personal"@,
        AuthenticationMethod::Wpa3EntSuiteB192Bit => "Wpa3EntSuiteB192Bit"@,
        AuthenticationMethod::Wpa3Enterprise => "Wpa3Enterprise"@,
        AuthenticationMethod::Wpa3ExtPsk => "Wpa3ExtPsk"@,
        AuthenticationMethod::Wpa3ExtPskMixed => "Wpa3ExtPskMixed"@,
        AuthenticationMethod::Wpa3Personal => "Wpa3Personal"@,
        AuthenticationMethod::WpaEnterprise => "WpaEnterprise"@,
        AuthenticationMethod::WpaWpa2Personal => "WpaWpa2Personal"@,
        AuthenticationMethod::Other => "Unknown"@,
    }
}

/// The name of a method in the log.
pub fn authentication_text(method: AuthenticationMethod) -> (name: &'static str)
    ensures
        name@ == authentication_name(method),
{
    match method {
        AuthenticationMethod::Dpp => "Dpp",
        AuthenticationMethod::Open => "None",
        AuthenticationMethod::Owe => "Owe",
        AuthenticationMethod::WapiPersonal => "WapiPersonal",
        AuthenticationMethod::Wep => "Wep",
        AuthenticationMethod::Wpa => "Wpa",
        AuthenticationMethod::Wpa2Enterprise => "Wpa2Enterprise",
        AuthenticationMethod::Wpa2Personal => "Wpa2Personal",
        AuthenticationMethod::Wpa2Wpa3Enterprise => "Wpa2Wpa3Enterprise",
        AuthenticationMethod::Wpa2Wpa3Personal => "Wpa2Wpa3Personal",
        AuthenticationMethod::Wpa3EntSuiteB192Bit => "Wpa3EntSuiteB192Bit",
        AuthenticationMethod::Wpa3Enterprise => "Wpa3Enterprise",
        AuthenticationMethod::Wpa3ExtPsk => "Wpa3ExtPsk",
        AuthenticationMethod::Wpa3ExtPskMixed => "Wpa3ExtPskMixed",
        AuthenticationMethod::Wpa3Personal => "Wpa3Personal",
        AuthenticationMethod::WpaEnterprise => "WpaEnterprise",
        AuthenticationMethod::WpaWpa2Personal => "WpaWpa2Personal",
        AuthenticationMethod::Other => "Unknown",
    }
}

/// Why a connection broke off or did not come about.
#[derive(Clone, Copy, PartialEq, Eq, Structural, Debug)]
pub enum DisconnectReason {
    AccessPointInitiatedDisassociation,
    AccessPointTsfReset,
    AkmpInvalid,
    AlterativeChannelOccupied,
    AssociationComebackTimeTooLong,
    AssociationFailed,
    AssociationLeave,
    AssociationNotAuthenticated,
    AssociationTooMany,
    AuthenticationExpired,
    AuthenticationFailed,
    AuthenticationLeave,
    BadCipherOrAkm,
    BeaconTimeout,
    BssTransitionDisassociated,
    CipherSuiteRejected,
    Class2FrameFromNonAuthenticatedStation,
    Class3FrameFromNonAssociatedStation,
    ConnectionFailed,
    DisassociatedDueToInactivity,
    DisassociatedPowerCapabilityBad,
    DisassociatedUnsupportedChannel,
    EndBlockAck,
    ExceededTxOp,
    FourWayHandshakeTimeout,
    GroupCipherInvalid,
    GroupKeyUpdateTimeout,
    IeIn4wayDiffers,
    IeInvalid,
    InvalidFtActionFrameCount,
    InvalidFte,
    InvalidMde,
    InvalidPmkid,
    InvalidRsnIeCapabilities,
    MicFailure,
    MissingAcks,
    NoAccessPointFound,
    NoAccessPointFoundInAuthmodeThreshold,
    NoAccessPointFoundInRssiThreshold,
    NoAccessPointFoundWithCompatibleSecurity,
    NoSspRoamingAgreement,
    NotAuthorizedThisLocation,
    NotEnoughBandwidth,
    PairwiseCipherInvalid,
    PeerInitiated,
    SaQueryTimeout,
    ServiceChangePercludesTs,
    SspRequestedDisassociation,
    StationLeaving,
    TdlsPeerUnreachable,
    TdlsUnspecified,
    TransmissionLinkEstablishmentFailed,
    UnknownBlockAck,
    UnspecifiedQos,
    UnsupportedRsnIeVersion,
    _802_1xAuthenticationFailed,
    /// A reason without a name of its own.
    Other,
}

/// The name of a reason in the log.
pub open spec fn reason_name(reason: DisconnectReason) -> Seq<char> {
    match reason {
        DisconnectReason::AccessPointInitiatedDisassociation => "AccessPointInitiatedDisassociation"@,
        DisconnectReason::AccessPointTsfReset => "AccessPointTsfReset"@,
        DisconnectReason::AkmpInvalid => "AkmpInvalid"@,
        DisconnectReason::AlterativeChannelOccupied => "AlterativeChannelOccupied"@,
        DisconnectReason::AssociationComebackTimeTooLong => "AssociationComebackTimeTooLong"@,
        DisconnectReason::AssociationFailed => "AssociationFailed"@,
        DisconnectReason::AssociationLeave => "AssociationLeave"@,
        DisconnectReason::AssociationNotAuthenticated => "AssociationNotAuthenticated"@,
        DisconnectReason::AssociationTooMany => "AssociationTooMany"@,
        DisconnectReason::AuthenticationExpired => "AuthenticationExpired"@,
        DisconnectReason::AuthenticationFailed => "AuthenticationFailed"@,
        DisconnectReason::AuthenticationLeave => "AuthenticationLeave"@,
        DisconnectReason::BadCipherOrAkm => "BadCipherOrAkm"@,
        DisconnectReason::BeaconTimeout => "BeaconTimeout"@,
        DisconnectReason::BssTransitionDisassociated => "BssTransitionDisassociated"@,
        DisconnectReason::CipherSuiteRejected => "CipherSuiteRejected"@,
        DisconnectReason::Class2FrameFromNonAuthenticatedStation => "Class2FrameFromNonAuthenticatedStation"@,
        DisconnectReason::Class3FrameFromNonAssociatedStation => "Class3FrameFromNonAssociatedStation"@,
        DisconnectReason::ConnectionFailed => "ConnectionFailed"@,
        DisconnectReason::DisassociatedDueToInactivity => "DisassociatedDueToInactivity"@,
        DisconnectReason::DisassociatedPowerCapabilityBad => "DisassociatedPowerCapabilityBad"@,
        DisconnectReason::DisassociatedUnsupportedChannel => "DisassociatedUnsupportedChannel"@,
        DisconnectReason::EndBlockAck => "EndBlockAck"@,
        DisconnectReason::ExceededTxOp => "ExceededTxOp"@,
        DisconnectReason::FourWayHandshakeTimeout => "FourWayHandshakeTimeout"@,
        DisconnectReason::GroupCipherInvalid => "GroupCipherInvalid"@,
        DisconnectReason::GroupKeyUpdateTimeout => "GroupKeyUpdateTimeout"@,
        DisconnectReason::IeIn4wayDiffers => "IeIn4wayDiffers"@,
        DisconnectReason::IeInvalid => "IeInvalid"@,
        DisconnectReason::InvalidFtActionFrameCount => "InvalidFtActionFrameCount"@,
        DisconnectReason::InvalidFte => "InvalidFte"@,
        DisconnectReason::InvalidMde => "InvalidMde"@,
        DisconnectReason::InvalidPmkid => "InvalidPmkid"@,
        DisconnectReason::InvalidRsnIeCapabilities => "InvalidRsnIeCapabilities"@,
        DisconnectReason::MicFailure => "MicFailure"@,
        DisconnectReason::MissingAcks => "MissingAcks"@,
        DisconnectReason::NoAccessPointFound => "NoAccessPointFound"@,
        DisconnectReason::NoAccessPointFoundInAuthmodeThreshold => "NoAccessPointFoundInAuthmodeThreshold"@,
        DisconnectReason::NoAccessPointFoundInRssiThreshold => "NoAccessPointFoundInRssiThreshold"@,
        DisconnectReason::NoAccessPointFoundWithCompatibleSecurity => "NoAccessPointFoundWithCompatibleSecurity"@,
        DisconnectReason::NoSspRoamingAgreement => "NoSspRoamingAgreement"@,
        DisconnectReason::NotAuthorizedThisLocation => "NotAuthorizedThisLocation"@,
        DisconnectReason::NotEnoughBandwidth => "NotEnoughBandwidth"@,
        DisconnectReason::PairwiseCipherInvalid => "PairwiseCipherInvalid"@,
        DisconnectReason::PeerInitiated => "PeerInitiated"@,
        DisconnectReason::SaQueryTimeout => "SaQueryTimeout"@,
        DisconnectReason::ServiceChangePercludesTs => "ServiceChangePercludesTs"@,
        DisconnectReason::SspRequestedDisassociation => "SspRequestedDisassociation"@,
        DisconnectReason::StationLeaving => "StationLeaving"@,
        DisconnectReason::TdlsPeerUnreachable => "TdlsPeerUnreachable"@,
        DisconnectReason::TdlsUnspecified => "TdlsUnspecified"@,
        DisconnectReason::TransmissionLinkEstablishmentFailed => "TransmissionLinkEstablishmentFailed"@,
        DisconnectReason::UnknownBlockAck => "UnknownBlockAck"@,
        DisconnectReason::UnspecifiedQos => "UnspecifiedQos"@,
        DisconnectReason::UnsupportedRsnIeVersion => "UnsupportedRsnIeVersion"@,
        DisconnectReason::_802_1xAuthenticationFailed => "_802_1xAuthenticationFailed"@,
        DisconnectReason::Other => "Unknown"@,
    }
}

/// The name of a reason in the log.
pub fn to_string(reason: DisconnectReason) -> (name: &'static str)
    ensures
        name@ == reason_name(reason),
{
    match reason {
        DisconnectReason::AccessPointInitiatedDisassociation => "AccessPointInitiatedDisassociation",
        DisconnectReason::AccessPointTsfReset => "AccessPointTsfReset",
        DisconnectReason::AkmpInvalid => "AkmpInvalid",
        DisconnectReason::AlterativeChannelOccupied => "AlterativeChannelOccupied",
        DisconnectReason::AssociationComebackTimeTooLong => "AssociationComebackTimeTooLong",
        DisconnectReason::AssociationFailed => "AssociationFailed",
        DisconnectReason::AssociationLeave => "AssociationLeave",
        DisconnectReason::AssociationNotAuthenticated => "AssociationNotAuthenticated",
        DisconnectReason::AssociationTooMany => "AssociationTooMany",
        DisconnectReason::AuthenticationExpired => "AuthenticationExpired",
        DisconnectReason::AuthenticationFailed => "AuthenticationFailed",
        DisconnectReason::AuthenticationLeave => "AuthenticationLeave",
        DisconnectReason::BadCipherOrAkm => "BadCipherOrAkm",
        DisconnectReason::BeaconTimeout => "BeaconTimeout",
        DisconnectReason::BssTransitionDisassociated => "BssTransitionDisassociated",
        DisconnectReason::CipherSuiteRejected => "CipherSuiteRejected",
        DisconnectReason::Class2FrameFromNonAuthenticatedStation => "Class2FrameFromNonAuthenticatedStation",
        DisconnectReason::Class3FrameFromNonAssociatedStation => "Class3FrameFromNonAssociatedStation",
        DisconnectReason::ConnectionFailed => "ConnectionFailed",
        DisconnectReason::DisassociatedDueToInactivity => "DisassociatedDueToInactivity",
        DisconnectReason::DisassociatedPowerCapabilityBad => "DisassociatedPowerCapabilityBad",
        DisconnectReason::DisassociatedUnsupportedChannel => "DisassociatedUnsupportedChannel",
        DisconnectReason::EndBlockAck => "EndBlockAck",
        DisconnectReason::ExceededTxOp => "ExceededTxOp",
        DisconnectReason::FourWayHandshakeTimeout => "FourWayHandshakeTimeout",
        DisconnectReason::GroupCipherInvalid => "GroupCipherInvalid",
        DisconnectReason::GroupKeyUpdateTimeout => "GroupKeyUpdateTimeout",
        DisconnectReason::IeIn4wayDiffers => "IeIn4wayDiffers",
        DisconnectReason::IeInvalid => "IeInvalid",
        DisconnectReason::InvalidFtActionFrameCount => "InvalidFtActionFrameCount",
        DisconnectReason::InvalidFte => "InvalidFte",
        DisconnectReason::InvalidMde => "InvalidMde",
        DisconnectReason::InvalidPmkid => "InvalidPmkid",
        DisconnectReason::InvalidRsnIeCapabilities => "InvalidRsnIeCapabilities",
        DisconnectReason::MicFailure => "MicFailure",
        DisconnectReason::MissingAcks => "MissingAcks",
        DisconnectReason::NoAccessPointFound => "NoAccessPointFound",
        DisconnectReason::NoAccessPointFoundInAuthmodeThreshold => "NoAccessPointFoundInAuthmodeThreshold",
        DisconnectReason::NoAccessPointFoundInRssiThreshold => "NoAccessPointFoundInRssiThreshold",
        DisconnectReason::NoAccessPointFoundWithCompatibleSecurity => "NoAccessPointFoundWithCompatibleSecurity",
        DisconnectReason::NoSspRoamingAgreement => "NoSspRoamingAgreement",
        DisconnectReason::NotAuthorizedThisLocation => "NotAuthorizedThisLocation",
        DisconnectReason::NotEnoughBandwidth => "NotEnoughBandwidth",
        DisconnectReason::PairwiseCipherInvalid => "PairwiseCipherInvalid",
        DisconnectReason::PeerInitiated => "PeerInitiated",
        DisconnectReason::SaQueryTimeout => "SaQueryTimeout",
        DisconnectReason::ServiceChangePercludesTs => "ServiceChangePercludesTs",
        DisconnectReason::SspRequestedDisassociation => "SspRequestedDisassociation",
        DisconnectReason::StationLeaving => "StationLeaving",
        DisconnectReason::TdlsPeerUnreachable => "TdlsPeerUnreachable",
        DisconnectReason::TdlsUnspecified => "TdlsUnspecified",
        DisconnectReason::TransmissionLinkEstablishmentFailed => "TransmissionLinkEstablishmentFailed",
        DisconnectReason::UnknownBlockAck => "UnknownBlockAck",
        DisconnectReason::UnspecifiedQos => "UnspecifiedQos",
        DisconnectReason::UnsupportedRsnIeVersion => "UnsupportedRsnIeVersion",
        DisconnectReason::_802_1xAuthenticationFailed => "_802_1xAuthenticationFailed",
        DisconnectReason::Other => "Unknown",
    }
}

/// What the driver can fail with.
#[derive(Clone, Copy, PartialEq, Eq, Structural, Debug)]
pub enum WifiError {
    InvalidArguments,
    InvalidPassword,
    InvalidSsid,
    NotConnected,
    Other,
    OutOfMemory,
    Unsupported,
    /// A failure without a name of its own.
    Unlisted,
}

/// The name of a failure in the log.
pub open spec fn error_name(error: WifiError) -> Seq<char> {
    match error {
        WifiError::InvalidArguments => "InvalidArguments"@,
        WifiError::InvalidPassword => "InvalidPassword"@,
        WifiError::InvalidSsid => "InvalidSsid"@,
        WifiError::NotConnected => "NotConnected"@,
        WifiError::Other => "Other"@,
        WifiError::OutOfMemory => "OutOfMemory"@,
        WifiError::Unsupported => "Unsupported"@,
        WifiError::Unlisted => "Unknown"@,
    }
}

/// The name of a failure in the log.
pub fn wifi_error_text(error: WifiError) -> (name: &'static str)
    ensures
        name@ == error_name(error),
{
    match error {
        WifiError::InvalidArguments => "InvalidArguments",
        WifiError::InvalidPassword => "InvalidPassword",
        WifiError::InvalidSsid => "InvalidSsid",
        WifiError::NotConnected => "NotConnected",
        WifiError::Other => "Other",
        WifiError::OutOfMemory => "OutOfMemory",
        WifiError::Unsupported => "Unsupported",
        WifiError::Unlisted => "Unknown",
    }
}

/// Why an attempt to connect failed.
#[derive(Clone, Copy, PartialEq, Eq, Structural, Debug)]
pub enum ConnectionError {
    /// The network or the air refused it.
    Failed(DisconnectReason),
    /// The driver refused it.
    Wifi(WifiError),
    /// A failure of another kind.
    Other,
}

/// The name of a failed attempt in the log.
pub open spec fn connection_error_name(error: ConnectionError) -> Seq<char> {
    match error {
        ConnectionError::Failed(reason) => reason_name(reason),
        ConnectionError::Wifi(error) => error_name(error),
        ConnectionError::Other => "Unknown"@,
    }
}

/// The name of a failed attempt in the log.
pub fn connection_error_text(error: ConnectionError) -> (name: &'static str)
    ensures
        name@ == connection_error_name(error),
{
    match error {
        ConnectionError::Failed(reason) => to_string(reason),
        ConnectionError::Wifi(error) => wifi_error_text(error),
        ConnectionError::Other => "Unknown",
    }
}

/// A number that tells the names of reasons apart: their length and a few of their characters.
spec fn name_key(s: Seq<char>) -> int {
    ((s.len()) * 128 + s[0] as u32) * 128 + s[s.len() - 2] as u32
}

/// The reason whose name has a given key.
spec fn reason_with_key(key: int) -> DisconnectReason {
    if key == 565487 {
        DisconnectReason::AccessPointInitiatedDisassociation
    } else if key == 319717 {
        DisconnectReason::AccessPointTsfReset
    } else if key == 188649 {
        DisconnectReason::AkmpInvalid
    } else if key == 418021 {
        DisconnectReason::AlterativeChannelOccupied
    } else if key == 499950 {
        DisconnectReason::AssociationComebackTimeTooLong
    } else if key == 286949 {
        DisconnectReason::AssociationFailed
    } else if key == 270582 {
        DisconnectReason::AssociationLeave
    } else if key == 450789 {
        DisconnectReason::AssociationNotAuthenticated
    } else if key == 303342 {
        DisconnectReason::AssociationTooMany
    } else if key == 352485 {
        DisconnectReason::AuthenticationExpired
    } else if key == 336101 {
        DisconnectReason::AuthenticationFailed
    } else if key == 319734 {
        DisconnectReason::AuthenticationLeave
    } else if key == 237931 {
        DisconnectReason::BadCipherOrAkm
    } else if key == 221557 {
        DisconnectReason::BeaconTimeout
    } else if key == 434533 {
        DisconnectReason::BssTransitionDisassociated
    } else if key == 319973 {
        DisconnectReason::CipherSuiteRejected
    } else if key == 631279 {
        DisconnectReason::Class2FrameFromNonAuthenticatedStation
    } else if key == 582127 {
        DisconnectReason::Class3FrameFromNonAssociatedStation
    } else if key == 270821 {
        DisconnectReason::ConnectionFailed
    } else if key == 467572 {
        DisconnectReason::DisassociatedDueToInactivity
    } else if key == 516705 {
        DisconnectReason::DisassociatedPowerCapabilityBad
    } else if key == 516709 {
        DisconnectReason::DisassociatedUnsupportedChannel
    } else if key == 189155 {
        DisconnectReason::EndBlockAck
    } else if key == 205519 {
        DisconnectReason::ExceededTxOp
    } else if key == 385909 {
        DisconnectReason::FourWayHandshakeTimeout
    } else if key == 304105 {
        DisconnectReason::GroupCipherInvalid
    } else if key == 353269 {
        DisconnectReason::GroupKeyUpdateTimeout
    } else if key == 255218 {
        DisconnectReason::IeIn4wayDiffers
    } else if key == 156905 {
        DisconnectReason::IeInvalid
    } else if key == 419054 {
        DisconnectReason::InvalidFtActionFrameCount
    } else if key == 173300 {
        DisconnectReason::InvalidFte
    } else if key == 173284 {
        DisconnectReason::InvalidMde
    } else if key == 206057 {
        DisconnectReason::InvalidPmkid
    } else if key == 402661 {
        DisconnectReason::InvalidRsnIeCapabilities
    } else if key == 173810 {
        DisconnectReason::MicFailure
    } else if key == 190187 {
        DisconnectReason::MissingAcks
    } else if key == 305006 {
        DisconnectReason::NoAccessPointFound
    } else if key == 616300 {
        DisconnectReason::NoAccessPointFoundInAuthmodeThreshold
    } else if key == 550764 {
        DisconnectReason::NoAccessPointFoundInRssiThreshold
    } else if key == 665460 {
        DisconnectReason::NoAccessPointFoundWithCompatibleSecurity
    } else if key == 354158 {
        DisconnectReason::NoSspRoamingAgreement
    } else if key == 419695 {
        DisconnectReason::NotAuthorizedThisLocation
    } else if key == 305012 {
        DisconnectReason::NotEnoughBandwidth
    } else if key == 354409 {
        DisconnectReason::PairwiseCipherInvalid
    } else if key == 223333 {
        DisconnectReason::PeerInitiated
    } else if key == 240117 {
        DisconnectReason::SaQueryTimeout
    } else if key == 403924 {
        DisconnectReason::ServiceChangePercludesTs
    } else if key == 436719 {
        DisconnectReason::SspRequestedDisassociation
    } else if key == 240110 {
        DisconnectReason::StationLeaving
    } else if key == 322156 {
        DisconnectReason::TdlsPeerUnreachable
    } else if key == 256613 {
        DisconnectReason::TdlsUnspecified
    } else if key == 584293 {
        DisconnectReason::TransmissionLinkEstablishmentFailed
    } else if key == 256739 {
        DisconnectReason::UnknownBlockAck
    } else if key == 240367 {
        DisconnectReason::UnspecifiedQos
    } else if key == 387823 {
        DisconnectReason::UnsupportedRsnIeVersion
    } else if key == 454629 {
        DisconnectReason::_802_1xAuthenticationFailed
    } else {
        DisconnectReason::Other
    }
}

/// No two reasons have the same name, so the log tells them apart.
pub proof fn law_reason_names_differ(a: DisconnectReason, b: DisconnectReason)
    ensures
        reason_name(a) == reason_name(b) ==> a == b,
{
    lemma_reason_key(a);
    lemma_reason_key(b);
}

/// A reason is found again from the key of its name.
proof fn lemma_reason_key(reason: DisconnectReason)
    ensures
        reason_with_key(name_key(reason_name(reason))) == reason,
{
    match reason {
        DisconnectReason::AccessPointInitiatedDisassociation => {
            reveal_strlit("AccessPointInitiatedDisassociation");
            assert(name_key("AccessPointInitiatedDisassociation"@) == 565487);
        },
        DisconnectReason::AccessPointTsfReset => {
            reveal_strlit("AccessPointTsfReset");
            assert(name_key("AccessPointTsfReset"@) == 319717);
        },
        DisconnectReason::AkmpInvalid => {
            reveal_strlit("AkmpInvalid");
            assert(name_key("AkmpInvalid"@) == 188649);
        },
        DisconnectReason::AlterativeChannelOccupied => {
            reveal_strlit("AlterativeChannelOccupied");
            assert(name_key("AlterativeChannelOccupied"@) == 418021);
        },
        DisconnectReason::AssociationComebackTimeTooLong => {
            reveal_strlit("AssociationComebackTimeTooLong");
            assert(name_key("AssociationComebackTimeTooLong"@) == 499950);
        },
        DisconnectReason::AssociationFailed => {
            reveal_strlit("AssociationFailed");
            assert(name_key("AssociationFailed"@) == 286949);
        },
        DisconnectReason::AssociationLeave => {
            reveal_strlit("AssociationLeave");
            assert(name_key("AssociationLeave"@) == 270582);
        },
        DisconnectReason::AssociationNotAuthenticated => {
            reveal_strlit("AssociationNotAuthenticated");
            assert(name_key("AssociationNotAuthenticated"@) == 450789);
        },
        DisconnectReason::AssociationTooMany => {
            reveal_strlit("AssociationTooMany");
            assert(name_key("AssociationTooMany"@) == 303342);
        },
        DisconnectReason::AuthenticationExpired => {
            reveal_strlit("AuthenticationExpired");
            assert(name_key("AuthenticationExpired"@) == 352485);
        },
        DisconnectReason::AuthenticationFailed => {
            reveal_strlit("AuthenticationFailed");
            assert(name_key("AuthenticationFailed"@) == 336101);
        },
        DisconnectReason::AuthenticationLeave => {
            reveal_strlit("AuthenticationLeave");
            assert(name_key("AuthenticationLeave"@) == 319734);
        },
        DisconnectReason::BadCipherOrAkm => {
            reveal_strlit("BadCipherOrAkm");
            assert(name_key("BadCipherOrAkm"@) == 237931);
        },
        DisconnectReason::BeaconTimeout => {
            reveal_strlit("BeaconTimeout");
            assert(name_key("BeaconTimeout"@) == 221557);
        },
        DisconnectReason::BssTransitionDisassociated => {
            reveal_strlit("BssTransitionDisassociated");
            assert(name_key("BssTransitionDisassociated"@) == 434533);
        },
        DisconnectReason::CipherSuiteRejected => {
            reveal_strlit("CipherSuiteRejected");
            assert(name_key("CipherSuiteRejected"@) == 319973);
        },
        DisconnectReason::Class2FrameFromNonAuthenticatedStation => {
            reveal_strlit("Class2FrameFromNonAuthenticatedStation");
            assert(name_key("Class2FrameFromNonAuthenticatedStation"@) == 631279);
        },
        DisconnectReason::Class3FrameFromNonAssociatedStation => {
            reveal_strlit("Class3FrameFromNonAssociatedStation");
            assert(name_key("Class3FrameFromNonAssociatedStation"@) == 582127);
        },
        DisconnectReason::ConnectionFailed => {
            reveal_strlit("ConnectionFailed");
            assert(name_key("ConnectionFailed"@) == 270821);
        },
        DisconnectReason::DisassociatedDueToInactivity => {
            reveal_strlit("DisassociatedDueToInactivity");
            assert(name_key("DisassociatedDueToInactivity"@) == 467572);
        },
        DisconnectReason::DisassociatedPowerCapabilityBad => {
            reveal_strlit("DisassociatedPowerCapabilityBad");
            assert(name_key("DisassociatedPowerCapabilityBad"@) == 516705);
        },
        DisconnectReason::DisassociatedUnsupportedChannel => {
            reveal_strlit("DisassociatedUnsupportedChannel");
            assert(name_key("DisassociatedUnsupportedChannel"@) == 516709);
        },
        DisconnectReason::EndBlockAck => {
            reveal_strlit("EndBlockAck");
            assert(name_key("EndBlockAck"@) == 189155);
        },
        DisconnectReason::ExceededTxOp => {
            reveal_strlit("ExceededTxOp");
            assert(name_key("ExceededTxOp"@) == 205519);
        },
        DisconnectReason::FourWayHandshakeTimeout => {
            reveal_strlit("FourWayHandshakeTimeout");
            assert(name_key("FourWayHandshakeTimeout"@) == 385909);
        },
        DisconnectReason::GroupCipherInvalid => {
            reveal_strlit("GroupCipherInvalid");
            assert(name_key("GroupCipherInvalid"@) == 304105);
        },
        DisconnectReason::GroupKeyUpdateTimeout => {
            reveal_strlit("GroupKeyUpdateTimeout");
            assert(name_key("GroupKeyUpdateTimeout"@) == 353269);
        },
        DisconnectReason::IeIn4wayDiffers => {
            reveal_strlit("IeIn4wayDiffers");
            assert(name_key("IeIn4wayDiffers"@) == 255218);
        },
        DisconnectReason::IeInvalid => {
            reveal_strlit("IeInvalid");
            assert(name_key("IeInvalid"@) == 156905);
        },
        DisconnectReason::InvalidFtActionFrameCount => {
            reveal_strlit("InvalidFtActionFrameCount");
            assert(name_key("InvalidFtActionFrameCount"@) == 419054);
        },
        DisconnectReason::InvalidFte => {
            reveal_strlit("InvalidFte");
            assert(name_key("InvalidFte"@) == 173300);
        },
        DisconnectReason::InvalidMde => {
            reveal_strlit("InvalidMde");
            assert(name_key("InvalidMde"@) == 173284);
        },
        DisconnectReason::InvalidPmkid => {
            reveal_strlit("InvalidPmkid");
            assert(name_key("InvalidPmkid"@) == 206057);
        },
        DisconnectReason::InvalidRsnIeCapabilities => {
            reveal_strlit("InvalidRsnIeCapabilities");
            assert(name_key("InvalidRsnIeCapabilities"@) == 402661);
        },
        DisconnectReason::MicFailure => {
            reveal_strlit("MicFailure");
            assert(name_key("MicFailure"@) == 173810);
        },
        DisconnectReason::MissingAcks => {
            reveal_strlit("MissingAcks");
            assert(name_key("MissingAcks"@) == 190187);
        },
        DisconnectReason::NoAccessPointFound => {
            reveal_strlit("NoAccessPointFound");
            assert(name_key("NoAccessPointFound"@) == 305006);
        },
        DisconnectReason::NoAccessPointFoundInAuthmodeThreshold => {
            reveal_strlit("NoAccessPointFoundInAuthmodeThreshold");
            assert(name_key("NoAccessPointFoundInAuthmodeThreshold"@) == 616300);
        },
        DisconnectReason::NoAccessPointFoundInRssiThreshold => {
            reveal_strlit("NoAccessPointFoundInRssiThreshold");
            assert(name_key("NoAccessPointFoundInRssiThreshold"@) == 550764);
        },
        DisconnectReason::NoAccessPointFoundWithCompatibleSecurity => {
            reveal_strlit("NoAccessPointFoundWithCompatibleSecurity");
            assert(name_key("NoAccessPointFoundWithCompatibleSecurity"@) == 665460);
        },
        DisconnectReason::NoSspRoamingAgreement => {
            reveal_strlit("NoSspRoamingAgreement");
            assert(name_key("NoSspRoamingAgreement"@) == 354158);
        },
        DisconnectReason::NotAuthorizedThisLocation => {
            reveal_strlit("NotAuthorizedThisLocation");
            assert(name_key("NotAuthorizedThisLocation"@) == 419695);
        },
        DisconnectReason::NotEnoughBandwidth => {
            reveal_strlit("NotEnoughBandwidth");
            assert(name_key("NotEnoughBandwidth"@) == 305012);
        },
        DisconnectReason::PairwiseCipherInvalid => {
            reveal_strlit("PairwiseCipherInvalid");
            assert(name_key("PairwiseCipherInvalid"@) == 354409);
        },
        DisconnectReason::PeerInitiated => {
            reveal_strlit("PeerInitiated");
            assert(name_key("PeerInitiated"@) == 223333);
        },
        DisconnectReason::SaQueryTimeout => {
            reveal_strlit("SaQueryTimeout");
            assert(name_key("SaQueryTimeout"@) == 240117);
        },
        DisconnectReason::ServiceChangePercludesTs => {
            reveal_strlit("ServiceChangePercludesTs");
            assert(name_key("ServiceChangePercludesTs"@) == 403924);
        },
        DisconnectReason::SspRequestedDisassociation => {
            reveal_strlit("SspRequestedDisassociation");
            assert(name_key("SspRequestedDisassociation"@) == 436719);
        },
        DisconnectReason::StationLeaving => {
            reveal_strlit("StationLeaving");
            assert(name_key("StationLeaving"@) == 240110);
        },
        DisconnectReason::TdlsPeerUnreachable => {
            reveal_strlit("TdlsPeerUnreachable");
            assert(name_key("TdlsPeerUnreachable"@) == 322156);
        },
        DisconnectReason::TdlsUnspecified => {
            reveal_strlit("TdlsUnspecified");
            assert(name_key("TdlsUnspecified"@) == 256613);
        },
        DisconnectReason::TransmissionLinkEstablishmentFailed => {
            reveal_strlit("TransmissionLinkEstablishmentFailed");
            assert(name_key("TransmissionLinkEstablishmentFailed"@) == 584293);
        },
        DisconnectReason::UnknownBlockAck => {
            reveal_strlit("UnknownBlockAck");
            assert(name_key("UnknownBlockAck"@) == 256739);
        },
        DisconnectReason::UnspecifiedQos => {
            reveal_strlit("UnspecifiedQos");
            assert(name_key("UnspecifiedQos"@) == 240367);
        },
        DisconnectReason::UnsupportedRsnIeVersion => {
            reveal_strlit("UnsupportedRsnIeVersion");
            assert(name_key("UnsupportedRsnIeVersion"@) == 387823);
        },
        DisconnectReason::_802_1xAuthenticationFailed => {
            reveal_strlit("_802_1xAuthenticationFailed");
            assert(name_key("_802_1xAuthenticationFailed"@) == 454629);
        },
        DisconnectReason::Other => {
            reveal_strlit("Unknown");
            assert(name_key("Unknown"@) == 125687);
        },
    }
}

/// What the wireless task is waiting for.
#[derive(Clone, Copy, PartialEq, Eq, Structural, Debug)]
pub enum WifiWait {
    /// The outcome of an attempt to connect.
    Connect,
    /// The end of the connection.
    Disconnect,
    /// The end of a pause of so many ticks, after which it tries to connect.
    Pause(u64),
}

/// What can happen to the wireless task.
#[derive(Clone, Copy, PartialEq, Eq, Structural, Debug)]
pub enum WifiEvent {
    /// The attempt to connect succeeded.
    Connected,
    /// The attempt to connect failed.
    ConnectFailed,
    /// The connection ended.
    Disconnected,
    /// The pause is over.
    PauseOver,
}

/// What follows from an event.
#[derive(Clone, Copy, PartialEq, Eq, Structural, Debug)]
pub struct WifiStep {
    /// What to wait for next.
    pub wait: WifiWait,
    /// A state of the device to announce.
    pub announce: Option<SystemState>,
}

/// How long to wait after an attempt that failed, in seconds.
pub const RETRY_SECONDS: u64 = 5;

/// How long to wait after a connection has ended, in seconds.
pub const RECONNECT_SECONDS: u64 = 2;

/// What follows from `event` while the task waits for `wait`. An event that does not answer the
/// wait changes nothing.
pub open spec fn after(wait: WifiWait, event: WifiEvent) -> WifiStep {
    match (wait, event) {
        (WifiWait::Connect, WifiEvent::Connected) => WifiStep {
            wait: WifiWait::Disconnect,
            announce: Some(SystemState::Running),
        },
        (WifiWait::Connect, WifiEvent::ConnectFailed) => WifiStep {
            wait: WifiWait::Pause((RETRY_SECONDS * ticks::TICKS_PER_SECOND) as u64),
            announce: Some(SystemState::WifiError),
        },
        (WifiWait::Disconnect, WifiEvent::Disconnected) => WifiStep {
            wait: WifiWait::Pause((RECONNECT_SECONDS * ticks::TICKS_PER_SECOND) as u64),
            announce: None,
        },
        (WifiWait::Pause(_), WifiEvent::PauseOver) => WifiStep {
            wait: WifiWait::Connect,
            announce: None,
        },
        _ => WifiStep { wait, announce: None },
    }
}

/// What the wireless task waits for at first.
pub fn wifi_begin() -> (wait: WifiWait)
    ensures
        wait == WifiWait::Connect,
{
    WifiWait::Connect
}

/// What the wireless task does after `event` while it waits for `wait`.
pub fn wifi_step(wait: WifiWait, event: WifiEvent) -> (step: WifiStep)
    ensures
        step == after(wait, event),
{
    match (wait, event) {
        (WifiWait::Connect, WifiEvent::Connected) => WifiStep {
            wait: WifiWait::Disconnect,
            announce: Some(SystemState::Running),
        },
        (WifiWait::Connect, WifiEvent::ConnectFailed) => {
            let pause: u64 = ticks::from_secs(RETRY_SECONDS);
            WifiStep { wait: WifiWait::Pause(pause), announce: Some(SystemState::WifiError) }
        },
        (WifiWait::Disconnect, WifiEvent::Disconnected) => {
            let pause: u64 = ticks::from_secs(RECONNECT_SECONDS);
            WifiStep { wait: WifiWait::Pause(pause), announce: None }
        },
        (WifiWait::Pause(_), WifiEvent::PauseOver) => WifiStep {
            wait: WifiWait::Connect,
            announce: None,
        },
        _ => WifiStep { wait, announce: None },
    }
}

/// Whether `event` is an answer to `wait`.
pub open spec fn answers(wait: WifiWait, event: WifiEvent) -> bool {
    match wait {
        WifiWait::Connect => event is Connected || event is ConnectFailed,
        WifiWait::Disconnect => event is Disconnected,
        WifiWait::Pause(_) => event is PauseOver,
    }
}

/// The task never gives up: a failed attempt and an ended connection both lead, after one pause,
/// to the next attempt.
pub proof fn law_connects_again(wait: WifiWait, event: WifiEvent)
    requires
        answers(wait, event),
        event is ConnectFailed || event is Disconnected,
    ensures
        after(wait, event).wait is Pause,
        after(after(wait, event).wait, WifiEvent::PauseOver).wait == WifiWait::Connect,
{
}

/// A state is announced with the outcome of each attempt, and with nothing else: `Running` for a
/// success, `WifiError` for a failure.
pub proof fn law_announces_outcomes(wait: WifiWait, event: WifiEvent)
    ensures
        after(wait, event).announce == if wait == WifiWait::Connect && event is Connected {
            Some(SystemState::Running)
        } else if wait == WifiWait::Connect && event is ConnectFailed {
            Some(SystemState::WifiError)
        } else {
            None
        },
{
}

/// The log names each reason by a word of its own, and by "Unknown" only what has none.
pub proof fn law_reason_is_read_from_name(reason: DisconnectReason, name: &'static str)
    requires
        call_ensures(to_string, (reason,), name),
    ensures
        name@ == "AccessPointInitiatedDisassociation"@
            <==> reason == DisconnectReason::AccessPointInitiatedDisassociation,
        name@ == "AccessPointTsfReset"@ <==> reason == DisconnectReason::AccessPointTsfReset,
        name@ == "AkmpInvalid"@ <==> reason == DisconnectReason::AkmpInvalid,
        name@ == "AlterativeChannelOccupied"@
            <==> reason == DisconnectReason::AlterativeChannelOccupied,
        name@ == "AssociationComebackTimeTooLong"@
            <==> reason == DisconnectReason::AssociationComebackTimeTooLong,
        name@ == "AssociationFailed"@ <==> reason == DisconnectReason::AssociationFailed,
        name@ == "AssociationLeave"@ <==> reason == DisconnectReason::AssociationLeave,
        name@ == "AssociationNotAuthenticated"@
            <==> reason == DisconnectReason::AssociationNotAuthenticated,
        name@ == "AssociationTooMany"@ <==> reason == DisconnectReason::AssociationTooMany,
        name@ == "AuthenticationExpired"@ <==> reason == DisconnectReason::AuthenticationExpired,
        name@ == "AuthenticationFailed"@ <==> reason == DisconnectReason::AuthenticationFailed,
        name@ == "AuthenticationLeave"@ <==> reason == DisconnectReason::AuthenticationLeave,
        name@ == "BadCipherOrAkm"@ <==> reason == DisconnectReason::BadCipherOrAkm,
        name@ == "BeaconTimeout"@ <==> reason == DisconnectReason::BeaconTimeout,
        name@ == "BssTransitionDisassociated"@
            <==> reason == DisconnectReason::BssTransitionDisassociated,
        name@ == "CipherSuiteRejected"@ <==> reason == DisconnectReason::CipherSuiteRejected,
        name@ == "Class2FrameFromNonAuthenticatedStation"@
            <==> reason == DisconnectReason::Class2FrameFromNonAuthenticatedStation,
        name@ == "Class3FrameFromNonAssociatedStation"@
            <==> reason == DisconnectReason::Class3FrameFromNonAssociatedStation,
        name@ == "ConnectionFailed"@ <==> reason == DisconnectReason::ConnectionFailed,
        name@ == "DisassociatedDueToInactivity"@
            <==> reason == DisconnectReason::DisassociatedDueToInactivity,
        name@ == "DisassociatedPowerCapabilityBad"@
            <==> reason == DisconnectReason::DisassociatedPowerCapabilityBad,
        name@ == "DisassociatedUnsupportedChannel"@
            <==> reason == DisconnectReason::DisassociatedUnsupportedChannel,
        name@ == "EndBlockAck"@ <==> reason == DisconnectReason::EndBlockAck,
        name@ == "ExceededTxOp"@ <==> reason == DisconnectReason::ExceededTxOp,
        name@ == "FourWayHandshakeTimeout"@
            <==> reason == DisconnectReason::FourWayHandshakeTimeout,
        name@ == "GroupCipherInvalid"@ <==> reason == DisconnectReason::GroupCipherInvalid,
        name@ == "GroupKeyUpdateTimeout"@ <==> reason == DisconnectReason::GroupKeyUpdateTimeout,
        name@ == "IeIn4wayDiffers"@ <==> reason == DisconnectReason::IeIn4wayDiffers,
        name@ == "IeInvalid"@ <==> reason == DisconnectReason::IeInvalid,
        name@ == "InvalidFtActionFrameCount"@
            <==> reason == DisconnectReason::InvalidFtActionFrameCount,
        name@ == "InvalidFte"@ <==> reason == DisconnectReason::InvalidFte,
        name@ == "InvalidMde"@ <==> reason == DisconnectReason::InvalidMde,
        name@ == "InvalidPmkid"@ <==> reason == DisconnectReason::InvalidPmkid,
        name@ == "InvalidRsnIeCapabilities"@
            <==> reason == DisconnectReason::InvalidRsnIeCapabilities,
        name@ == "MicFailure"@ <==> reason == DisconnectReason::MicFailure,
        name@ == "MissingAcks"@ <==> reason == DisconnectReason::MissingAcks,
        name@ == "NoAccessPointFound"@ <==> reason == DisconnectReason::NoAccessPointFound,
        name@ == "NoAccessPointFoundInAuthmodeThreshold"@
            <==> reason == DisconnectReason::NoAccessPointFoundInAuthmodeThreshold,
        name@ == "NoAccessPointFoundInRssiThreshold"@
            <==> reason == DisconnectReason::NoAccessPointFoundInRssiThreshold,
        name@ == "NoAccessPointFoundWithCompatibleSecurity"@
            <==> reason == DisconnectReason::NoAccessPointFoundWithCompatibleSecurity,
        name@ == "NoSspRoamingAgreement"@ <==> reason == DisconnectReason::NoSspRoamingAgreement,
        name@ == "NotAuthorizedThisLocation"@
            <==> reason == DisconnectReason::NotAuthorizedThisLocation,
        name@ == "NotEnoughBandwidth"@ <==> reason == DisconnectReason::NotEnoughBandwidth,
        name@ == "PairwiseCipherInvalid"@ <==> reason == DisconnectReason::PairwiseCipherInvalid,
        name@ == "PeerInitiated"@ <==> reason == DisconnectReason::PeerInitiated,
        name@ == "SaQueryTimeout"@ <==> reason == DisconnectReason::SaQueryTimeout,
        name@ == "ServiceChangePercludesTs"@
            <==> reason == DisconnectReason::ServiceChangePercludesTs,
        name@ == "SspRequestedDisassociation"@
            <==> reason == DisconnectReason::SspRequestedDisassociation,
        name@ == "StationLeaving"@ <==> reason == DisconnectReason::StationLeaving,
        name@ == "TdlsPeerUnreachable"@ <==> reason == DisconnectReason::TdlsPeerUnreachable,
        name@ == "TdlsUnspecified"@ <==> reason == DisconnectReason::TdlsUnspecified,
        name@ == "TransmissionLinkEstablishmentFailed"@
            <==> reason == DisconnectReason::TransmissionLinkEstablishmentFailed,
        name@ == "UnknownBlockAck"@ <==> reason == DisconnectReason::UnknownBlockAck,
        name@ == "UnspecifiedQos"@ <==> reason == DisconnectReason::UnspecifiedQos,
        name@ == "UnsupportedRsnIeVersion"@
            <==> reason == DisconnectReason::UnsupportedRsnIeVersion,
        name@ == "_802_1xAuthenticationFailed"@
            <==> reason == DisconnectReason::_802_1xAuthenticationFailed,
        name@ == "Unknown"@ <==> reason == DisconnectReason::Other,
{
    law_reason_names_differ(reason, DisconnectReason::AccessPointInitiatedDisassociation);
    law_reason_names_differ(reason, DisconnectReason::AccessPointTsfReset);
    law_reason_names_differ(reason, DisconnectReason::AkmpInvalid);
    law_reason_names_differ(reason, DisconnectReason::AlterativeChannelOccupied);
    law_reason_names_differ(reason, DisconnectReason::AssociationComebackTimeTooLong);
    law_reason_names_differ(reason, DisconnectReason::AssociationFailed);
    law_reason_names_differ(reason, DisconnectReason::AssociationLeave);
    law_reason_names_differ(reason, DisconnectReason::AssociationNotAuthenticated);
    law_reason_names_differ(reason, DisconnectReason::AssociationTooMany);
    law_reason_names_differ(reason, DisconnectReason::AuthenticationExpired);
    law_reason_names_differ(reason, DisconnectReason::AuthenticationFailed);
    law_reason_names_differ(reason, DisconnectReason::AuthenticationLeave);
    law_reason_names_differ(reason, DisconnectReason::BadCipherOrAkm);
    law_reason_names_differ(reason, DisconnectReason::BeaconTimeout);
    law_reason_names_differ(reason, DisconnectReason::BssTransitionDisassociated);
    law_reason_names_differ(reason, DisconnectReason::CipherSuiteRejected);
    law_reason_names_differ(reason, DisconnectReason::Class2FrameFromNonAuthenticatedStation);
    law_reason_names_differ(reason, DisconnectReason::Class3FrameFromNonAssociatedStation);
    law_reason_names_differ(reason, DisconnectReason::ConnectionFailed);
    law_reason_names_differ(reason, DisconnectReason::DisassociatedDueToInactivity);
    law_reason_names_differ(reason, DisconnectReason::DisassociatedPowerCapabilityBad);
    law_reason_names_differ(reason, DisconnectReason::DisassociatedUnsupportedChannel);
    law_reason_names_differ(reason, DisconnectReason::EndBlockAck);
    law_reason_names_differ(reason, DisconnectReason::ExceededTxOp);
    law_reason_names_differ(reason, DisconnectReason::FourWayHandshakeTimeout);
    law_reason_names_differ(reason, DisconnectReason::GroupCipherInvalid);
    law_reason_names_differ(reason, DisconnectReason::GroupKeyUpdateTimeout);
    law_reason_names_differ(reason, DisconnectReason::IeIn4wayDiffers);
    law_reason_names_differ(reason, DisconnectReason::IeInvalid);
    law_reason_names_differ(reason, DisconnectReason::InvalidFtActionFrameCount);
    law_reason_names_differ(reason, DisconnectReason::InvalidFte);
    law_reason_names_differ(reason, DisconnectReason::InvalidMde);
    law_reason_names_differ(reason, DisconnectReason::InvalidPmkid);
    law_reason_names_differ(reason, DisconnectReason::InvalidRsnIeCapabilities);
    law_reason_names_differ(reason, DisconnectReason::MicFailure);
    law_reason_names_differ(reason, DisconnectReason::MissingAcks);
    law_reason_names_differ(reason, DisconnectReason::NoAccessPointFound);
    law_reason_names_differ(reason, DisconnectReason::NoAccessPointFoundInAuthmodeThreshold);
    law_reason_names_differ(reason, DisconnectReason::NoAccessPointFoundInRssiThreshold);
    law_reason_names_differ(reason, DisconnectReason::NoAccessPointFoundWithCompatibleSecurity);
    law_reason_names_differ(reason, DisconnectReason::NoSspRoamingAgreement);
    law_reason_names_differ(reason, DisconnectReason::NotAuthorizedThisLocation);
    law_reason_names_differ(reason, DisconnectReason::NotEnoughBandwidth);
    law_reason_names_differ(reason, DisconnectReason::PairwiseCipherInvalid);
    law_reason_names_differ(reason, DisconnectReason::PeerInitiated);
    law_reason_names_differ(reason, DisconnectReason::SaQueryTimeout);
    law_reason_names_differ(reason, DisconnectReason::ServiceChangePercludesTs);
    law_reason_names_differ(reason, DisconnectReason::SspRequestedDisassociation);
    law_reason_names_differ(reason, DisconnectReason::StationLeaving);
    law_reason_names_differ(reason, DisconnectReason::TdlsPeerUnreachable);
    law_reason_names_differ(reason, DisconnectReason::TdlsUnspecified);
    law_reason_names_differ(reason, DisconnectReason::TransmissionLinkEstablishmentFailed);
    law_reason_names_differ(reason, DisconnectReason::UnknownBlockAck);
    law_reason_names_differ(reason, DisconnectReason::UnspecifiedQos);
    law_reason_names_differ(reason, DisconnectReason::UnsupportedRsnIeVersion);
    law_reason_names_differ(reason, DisconnectReason::_802_1xAuthenticationFailed);
    law_reason_names_differ(reason, DisconnectReason::Other);
}

/// The log names each way of authentication by a word of its own, and by "Unknown" only what has
/// none; "None" is that of an open network.
pub proof fn law_method_is_read_from_name(method: AuthenticationMethod, name: &'static str)
    requires
        call_ensures(authentication_text, (method,), name),
    ensures
        name@ == "Dpp"@ <==> method == AuthenticationMethod::Dpp,
        name@ == "None"@ <==> method == AuthenticationMethod::Open,
        name@ == "Owe"@ <==> method == AuthenticationMethod::Owe,
        name@ == "WapiPersonal"@ <==> method == AuthenticationMethod::WapiPersonal,
        name@ == "Wep"@ <==> method == AuthenticationMethod::Wep,
        name@ == "Wpa"@ <==> method == AuthenticationMethod::Wpa,
        name@ == "Wpa2Enterprise"@ <==> method == AuthenticationMethod::Wpa2Enterprise,
        name@ == "Wpa2Personal"@ <==> method == AuthenticationMethod::Wpa2Personal,
        name@ == "Wpa2Wpa3Enterprise"@ <==> method == AuthenticationMethod::Wpa2Wpa3Enterprise,
        name@ == "Wpa2Wpa3Personal"@ <==> method == AuthenticationMethod::Wpa2Wpa3Personal,
        name@ == "Wpa3EntSuiteB192Bit"@ <==> method == AuthenticationMethod::Wpa3EntSuiteB192Bit,
        name@ == "Wpa3Enterprise"@ <==> method == AuthenticationMethod::Wpa3Enterprise,
        name@ == "Wpa3ExtPsk"@ <==> method == AuthenticationMethod::Wpa3ExtPsk,
        name@ == "Wpa3ExtPskMixed"@ <==> method == AuthenticationMethod::Wpa3ExtPskMixed,
        name@ == "Wpa3Personal"@ <==> method == AuthenticationMethod::Wpa3Personal,
        name@ == "WpaEnterprise"@ <==> method == AuthenticationMethod::WpaEnterprise,
        name@ == "WpaWpa2Personal"@ <==> method == AuthenticationMethod::WpaWpa2Personal,
        name@ == "Unknown"@ <==> method == AuthenticationMethod::Other,
{
    reveal_strlit("Dpp");
    reveal_strlit("None");
    reveal_strlit("Owe");
    reveal_strlit("WapiPersonal");
    reveal_strlit("Wep");
    reveal_strlit("Wpa");
    reveal_strlit("Wpa2Enterprise");
    reveal_strlit("Wpa2Personal");
    reveal_strlit("Wpa2Wpa3Enterprise");
    reveal_strlit("Wpa2Wpa3Personal");
    reveal_strlit("Wpa3EntSuiteB192Bit");
    reveal_strlit("Wpa3Enterprise");
    reveal_strlit("Wpa3ExtPsk");
    reveal_strlit("Wpa3ExtPskMixed");
    reveal_strlit("Wpa3Personal");
    reveal_strlit("WpaEnterprise");
    reveal_strlit("WpaWpa2Personal");
    reveal_strlit("Unknown");
    assert("Dpp"@.len() == 3);
    assert("None"@.len() == 4);
    assert("Owe"@.len() == 3);
    assert("WapiPersonal"@.len() == 12);
    assert("Wep"@.len() == 3);
    assert("Wpa"@.len() == 3);
    assert("Wpa2Enterprise"@.len() == 14);
    assert("Wpa2Personal"@.len() == 12);
    assert("Wpa2Wpa3Enterprise"@.len() == 18);
    assert("Wpa2Wpa3Personal"@.len() == 16);
    assert("Wpa3EntSuiteB192Bit"@.len() == 19);
    assert("Wpa3Enterprise"@.len() == 14);
    assert("Wpa3ExtPsk"@.len() == 10);
    assert("Wpa3ExtPskMixed"@.len() == 15);
    assert("Wpa3Personal"@.len() == 12);
    assert("WpaEnterprise"@.len() == 13);
    assert("WpaWpa2Personal"@.len() == 15);
    assert("Unknown"@.len() == 7);
    assert("Dpp"@[0] == 'D');
    assert("Owe"@[0] == 'O');
    assert("WapiPersonal"@[1] == 'a');
    assert("Wep"@[0] == 'W');
    assert("Wep"@[1] == 'e');
    assert("Wpa"@[0] == 'W');
    assert("Wpa"@[1] == 'p');
    assert("Wpa2Enterprise"@[3] == '2');
    assert("Wpa2Personal"@[1] == 'p');
    assert("Wpa2Personal"@[3] == '2');
    assert("Wpa3Enterprise"@[3] == '3');
    assert("Wpa3ExtPskMixed"@[3] == '3');
    assert("Wpa3Personal"@[1] == 'p');
    assert("Wpa3Personal"@[3] == '3');
    assert("WpaWpa2Personal"@[3] == 'W');
}

/// The log names each failure of the driver by a word of its own, and by "Unknown" only what has
/// none.
pub proof fn law_error_is_read_from_name(error: WifiError, name: &'static str)
    requires
        call_ensures(wifi_error_text, (error,), name),
    ensures
        name@ == "InvalidArguments"@ <==> error == WifiError::InvalidArguments,
        name@ == "InvalidPassword"@ <==> error == WifiError::InvalidPassword,
        name@ == "InvalidSsid"@ <==> error == WifiError::InvalidSsid,
        name@ == "NotConnected"@ <==> error == WifiError::NotConnected,
        name@ == "Other"@ <==> error == WifiError::Other,
        name@ == "OutOfMemory"@ <==> error == WifiError::OutOfMemory,
        name@ == "Unsupported"@ <==> error == WifiError::Unsupported,
        name@ == "Unknown"@ <==> error == WifiError::Unlisted,
{
    reveal_strlit("InvalidArguments");
    reveal_strlit("InvalidPassword");
    reveal_strlit("InvalidSsid");
    reveal_strlit("NotConnected");
    reveal_strlit("Other");
    reveal_strlit("OutOfMemory");
    reveal_strlit("Unsupported");
    reveal_strlit("Unknown");
    assert("InvalidArguments"@.len() == 16);
    assert("InvalidPassword"@.len() == 15);
    assert("InvalidSsid"@.len() == 11);
    assert("NotConnected"@.len() == 12);
    assert("Other"@.len() == 5);
    assert("OutOfMemory"@.len() == 11);
    assert("Unsupported"@.len() == 11);
    assert("Unknown"@.len() == 7);
    assert("InvalidSsid"@[0] == 'I');
    assert("OutOfMemory"@[0] == 'O');
    assert("Unsupported"@[0] == 'U');
}

/// A failed attempt is named by what it failed with.
pub proof fn law_attempt_is_named_by_cause(
    reason: DisconnectReason,
    error: WifiError,
    reason_text: &'static str,
    error_text: &'static str,
    failed: &'static str,
    refused: &'static str,
    other: &'static str,
)
    requires
        call_ensures(to_string, (reason,), reason_text),
        call_ensures(wifi_error_text, (error,), error_text),
        call_ensures(connection_error_text, (ConnectionError::Failed(reason),), failed),
        call_ensures(connection_error_text, (ConnectionError::Wifi(error),), refused),
        call_ensures(connection_error_text, (ConnectionError::Other,), other),
    ensures
        failed@ == reason_text@,
        refused@ == error_text@,
        other@ == "Unknown"@,
{
}

/// Every step of the wireless task: a failed attempt is repeated after five seconds, and a
/// connection that ended is made again after two. It announces a device that runs when it
/// connects, and an error of the network when it cannot.
pub proof fn law_wireless_steps(wait: WifiWait, event: WifiEvent, step: WifiStep, first: WifiWait)
    requires
        call_ensures(wifi_step, (wait, event), step),
        call_ensures(wifi_begin, (), first),
    ensures
        first is Connect,
        wait is Connect && event is Connected ==> step.wait is Disconnect && step.announce == Some(
            SystemState::Running,
        ),
        wait is Connect && event is ConnectFailed ==> step.wait == WifiWait::Pause(5_000_000)
            && step.announce == Some(SystemState::WifiError),
        wait is Disconnect && event is Disconnected ==> step.wait == WifiWait::Pause(2_000_000)
            && step.announce is None,
        wait is Pause && event is PauseOver ==> step.wait is Connect && step.announce is None,
        wait is Connect && !(event is Connected || event is ConnectFailed) ==> step.wait == wait
            && step.announce is None,
        wait is Disconnect && !(event is Disconnected) ==> step.wait == wait && step.announce
            is None,
        wait is Pause && !(event is PauseOver) ==> step.wait == wait && step.announce is None,
{
}

} // verus!
