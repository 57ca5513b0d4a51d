//! Errors that may arise when interacting with the Core Bridge program.
//!
//! Each error has a discriminant grouped by area:
//!
//! * \>= 0x0    -- General program related.
//! * \>= 0x10   -- General Core Bridge.
//! * \>= 0x20   -- General Core Bridge Governance.
//! * \>= 0x100  -- Legacy Post Message.
//! * \>= 0x200  -- Legacy Post VAA.
//! * \>= 0x300  -- Legacy Set Message Fee.
//! * \>= 0x400  -- Legacy Transfer Fees.
//! * \>= 0x500  -- Legacy Upgrade Contract.
//! * \>= 0x600  -- Legacy Guardian Set Update.
//! * \>= 0x700  -- Legacy Verify Signatures.
//! * \>= 0x800  -- Legacy Post Message Unreliable.
//! * \>= 0x1000 -- Core Bridge Anchor Instruction.
//! * \>= 0x2000 -- Core Bridge SDK.
//!
//! The error code reported on chain is the discriminant offset by the Anchor framework's
//! user error offset (6000). So, for example, `U64Overflow` is reported as 6006.

use vstd::prelude::*;

verus! {

/// The Anchor framework's starting point for user defined error codes.
pub const ERROR_CODE_OFFSET: u32 = 6000;

/// Errors relevant to Core Bridge's malfunction.
#[derive(Debug, Clone, Copy, PartialEq, Eq, Structural)]
pub enum CoreBridgeError {
    InvalidInstructionArgument,
    AccountNotZeroed,
    InvalidDataConversion,
    U64Overflow,
    InvalidComputeSize,
    InvalidChain,
    InvalidGovernanceEmitter,
    InvalidGovernanceAction,
    LatestGuardianSetRequired,
    GovernanceForAnotherChain,
    InvalidGovernanceVaa,
    InsufficientFees,
    EmitterMismatch,
    NotReadyForPublishing,
    InvalidPreparedMessage,
    ExecutableEmitter,
    LegacyEmitter,
    InvalidSignatureSet,
    InvalidMessageHash,
    NoQuorum,
    MessageMismatch,
    NotEnoughLamports,
    InvalidFeeRecipient,
    ImplementationMismatch,
    InvalidGuardianSetIndex,
    GuardianSetMismatch,
    InstructionAtWrongIndex,
    EmptySigVerifyInstruction,
    InvalidSigVerifyInstruction,
    GuardianSetExpired,
    InvalidGuardianKeyRecovery,
    SignerIndicesMismatch,
    PayloadSizeMismatch,
    ZeroGuardians,
    GuardianZeroAddress,
    DuplicateGuardianAddress,
    MessageAlreadyPublished,
    VaaWritingDisallowed,
    VaaAlreadyVerified,
    InvalidGuardianIndex,
    InvalidSignature,
    UnverifiedVaa,
    VaaStillProcessing,
    InWritingStatus,
    NotInWritingStatus,
    InvalidMessageStatus,
    HashNotComputed,
    InvalidVaaVersion,
    InvalidCreatedAccountSize,
    DataOverflow,
    ExceedsMaxPayloadSize,
    CannotParseVaa,
    EmitterAuthorityMismatch,
    InvalidProgramEmitter,
    WriteAuthorityMismatch,
    PostedVaaPayloadTooLarge,
    ExecutableDisallowed,
}

/// The discriminant of each error, as the program's error table assigns it.
pub open spec fn error_discriminant(e: CoreBridgeError) -> u32 {
    match e {
        CoreBridgeError::InvalidInstructionArgument => 0x2,
        CoreBridgeError::AccountNotZeroed => 0x3,
        CoreBridgeError::InvalidDataConversion => 0x4,
        CoreBridgeError::U64Overflow => 0x6,
        CoreBridgeError::InvalidComputeSize => 0x8,
        CoreBridgeError::InvalidChain => 0x10,
        CoreBridgeError::InvalidGovernanceEmitter => 0x20,
        CoreBridgeError::InvalidGovernanceAction => 0x22,
        CoreBridgeError::LatestGuardianSetRequired => 0x24,
        CoreBridgeError::GovernanceForAnotherChain => 0x26,
        CoreBridgeError::InvalidGovernanceVaa => 0x28,
        CoreBridgeError::InsufficientFees => 0x100,
        CoreBridgeError::EmitterMismatch => 0x102,
        CoreBridgeError::NotReadyForPublishing => 0x104,
        CoreBridgeError::InvalidPreparedMessage => 0x106,
        CoreBridgeError::ExecutableEmitter => 0x108,
        CoreBridgeError::LegacyEmitter => 0x10a,
        CoreBridgeError::InvalidSignatureSet => 0x200,
        CoreBridgeError::InvalidMessageHash => 0x202,
        CoreBridgeError::NoQuorum => 0x203,
        CoreBridgeError::MessageMismatch => 0x204,
        CoreBridgeError::NotEnoughLamports => 0x400,
        CoreBridgeError::InvalidFeeRecipient => 0x402,
        CoreBridgeError::ImplementationMismatch => 0x500,
        CoreBridgeError::InvalidGuardianSetIndex => 0x600,
        CoreBridgeError::GuardianSetMismatch => 0x700,
        CoreBridgeError::InstructionAtWrongIndex => 0x702,
        CoreBridgeError::EmptySigVerifyInstruction => 0x703,
        CoreBridgeError::InvalidSigVerifyInstruction => 0x704,
        CoreBridgeError::GuardianSetExpired => 0x706,
        CoreBridgeError::InvalidGuardianKeyRecovery => 0x708,
        CoreBridgeError::SignerIndicesMismatch => 0x70a,
        CoreBridgeError::PayloadSizeMismatch => 0x800,
        CoreBridgeError::ZeroGuardians => 0x1010,
        CoreBridgeError::GuardianZeroAddress => 0x1020,
        CoreBridgeError::DuplicateGuardianAddress => 0x1030,
        CoreBridgeError::MessageAlreadyPublished => 0x1040,
        CoreBridgeError::VaaWritingDisallowed => 0x1050,
        CoreBridgeError::VaaAlreadyVerified => 0x1060,
        CoreBridgeError::InvalidGuardianIndex => 0x1070,
        CoreBridgeError::InvalidSignature => 0x1080,
        CoreBridgeError::UnverifiedVaa => 0x10a0,
        CoreBridgeError::VaaStillProcessing => 0x10a2,
        CoreBridgeError::InWritingStatus => 0x10a4,
        CoreBridgeError::NotInWritingStatus => 0x10a6,
        CoreBridgeError::InvalidMessageStatus => 0x10a8,
        CoreBridgeError::HashNotComputed => 0x10aa,
        CoreBridgeError::InvalidVaaVersion => 0x10ac,
        CoreBridgeError::InvalidCreatedAccountSize => 0x10ae,
        CoreBridgeError::DataOverflow => 0x10b0,
        CoreBridgeError::ExceedsMaxPayloadSize => 0x10b2,
        CoreBridgeError::CannotParseVaa => 0x10b4,
        CoreBridgeError::EmitterAuthorityMismatch => 0x10b6,
        CoreBridgeError::InvalidProgramEmitter => 0x10b8,
        CoreBridgeError::WriteAuthorityMismatch => 0x10ba,
        CoreBridgeError::PostedVaaPayloadTooLarge => 0x10bc,
        CoreBridgeError::ExecutableDisallowed => 0x10be,
    }
}

/// The error code that the program reports for an error.
pub open spec fn error_code_number(e: CoreBridgeError) -> u32 {
    (error_discriminant(e) + ERROR_CODE_OFFSET) as u32
}

/// The variant name of an error.
pub open spec fn error_name(e: CoreBridgeError) -> Seq<char> {
    match e {
        CoreBridgeError::InvalidInstructionArgument => "InvalidInstructionArgument"@,
        CoreBridgeError::AccountNotZeroed => "AccountNotZeroed"@,
        CoreBridgeError::InvalidDataConversion => "InvalidDataConversion"@,
        CoreBridgeError::U64Overflow => "U64Overflow"@,
        CoreBridgeError::InvalidComputeSize => "InvalidComputeSize"@,
        CoreBridgeError::InvalidChain => "InvalidChain"@,
        CoreBridgeError::InvalidGovernanceEmitter => "InvalidGovernanceEmitter"@,
        CoreBridgeError::InvalidGovernanceAction => "InvalidGovernanceAction"@,
        CoreBridgeError::LatestGuardianSetRequired => "LatestGuardianSetRequired"@,
        CoreBridgeError::GovernanceForAnotherChain => "GovernanceForAnotherChain"@,
        CoreBridgeError::InvalidGovernanceVaa => "InvalidGovernanceVaa"@,
        CoreBridgeError::InsufficientFees => "InsufficientFees"@,
        CoreBridgeError::EmitterMismatch => "EmitterMismatch"@,
        CoreBridgeError::NotReadyForPublishing => "NotReadyForPublishing"@,
        CoreBridgeError::InvalidPreparedMessage => "InvalidPreparedMessage"@,
        CoreBridgeError::ExecutableEmitter => "ExecutableEmitter"@,
        CoreBridgeError::LegacyEmitter => "LegacyEmitter"@,
        CoreBridgeError::InvalidSignatureSet => "InvalidSignatureSet"@,
        CoreBridgeError::InvalidMessageHash => "InvalidMessageHash"@,
        CoreBridgeError::NoQuorum => "NoQuorum"@,
        CoreBridgeError::MessageMismatch => "MessageMismatch"@,
        CoreBridgeError::NotEnoughLamports => "NotEnoughLamports"@,
        CoreBridgeError::InvalidFeeRecipient => "InvalidFeeRecipient"@,
        CoreBridgeError::ImplementationMismatch => "ImplementationMismatch"@,
        CoreBridgeError::InvalidGuardianSetIndex => "InvalidGuardianSetIndex"@,
        CoreBridgeError::GuardianSetMismatch => "GuardianSetMismatch"@,
        CoreBridgeError::InstructionAtWrongIndex => "InstructionAtWrongIndex"@,
        CoreBridgeError::EmptySigVerifyInstruction => "EmptySigVerifyInstruction"@,
        CoreBridgeError::InvalidSigVerifyInstruction => "InvalidSigVerifyInstruction"@,
        CoreBridgeError::GuardianSetExpired => "GuardianSetExpired"@,
        CoreBridgeError::InvalidGuardianKeyRecovery => "InvalidGuardianKeyRecovery"@,
        CoreBridgeError::SignerIndicesMismatch => "SignerIndicesMismatch"@,
        CoreBridgeError::PayloadSizeMismatch => "PayloadSizeMismatch"@,
        CoreBridgeError::ZeroGuardians => "ZeroGuardians"@,
        CoreBridgeError::GuardianZeroAddress => "GuardianZeroAddress"@,
        CoreBridgeError::DuplicateGuardianAddress => "DuplicateGuardianAddress"@,
        CoreBridgeError::MessageAlreadyPublished => "MessageAlreadyPublished"@,
        CoreBridgeError::VaaWritingDisallowed => "VaaWritingDisallowed"@,
        CoreBridgeError::VaaAlreadyVerified => "VaaAlreadyVerified"@,
        CoreBridgeError::InvalidGuardianIndex => "InvalidGuardianIndex"@,
        CoreBridgeError::InvalidSignature => "InvalidSignature"@,
        CoreBridgeError::UnverifiedVaa => "UnverifiedVaa"@,
        CoreBridgeError::VaaStillProcessing => "VaaStillProcessing"@,
        CoreBridgeError::InWritingStatus => "InWritingStatus"@,
        CoreBridgeError::NotInWritingStatus => "NotInWritingStatus"@,
        CoreBridgeError::InvalidMessageStatus => "InvalidMessageStatus"@,
        CoreBridgeError::HashNotComputed => "HashNotComputed"@,
        CoreBridgeError::InvalidVaaVersion => "InvalidVaaVersion"@,
        CoreBridgeError::InvalidCreatedAccountSize => "InvalidCreatedAccountSize"@,
        CoreBridgeError::DataOverflow => "DataOverflow"@,
        CoreBridgeError::ExceedsMaxPayloadSize => "ExceedsMaxPayloadSize"@,
        CoreBridgeError::CannotParseVaa => "CannotParseVaa"@,
        CoreBridgeError::EmitterAuthorityMismatch => "EmitterAuthorityMismatch"@,
        CoreBridgeError::InvalidProgramEmitter => "InvalidProgramEmitter"@,
        CoreBridgeError::WriteAuthorityMismatch => "WriteAuthorityMismatch"@,
        CoreBridgeError::PostedVaaPayloadTooLarge => "PostedVaaPayloadTooLarge"@,
        CoreBridgeError::ExecutableDisallowed => "ExecutableDisallowed"@,
    }
}

/// The human readable message of an error.
pub open spec fn error_message(e: CoreBridgeError) -> Seq<char> {
    match e {
        CoreBridgeError::ExceedsMaxPayloadSize => "ExceedsMaxPayloadSize (30KB)"@,
        _ => error_name(e),
    }
}

impl CoreBridgeError {
    /// The discriminant of this error.
    pub fn discriminant(&self) -> (r: u32)
        ensures
            r == error_discriminant(*self),
    {
        match self {
            CoreBridgeError::InvalidInstructionArgument => 0x2,
            CoreBridgeError::AccountNotZeroed => 0x3,
            CoreBridgeError::InvalidDataConversion => 0x4,
            CoreBridgeError::U64Overflow => 0x6,
            CoreBridgeError::InvalidComputeSize => 0x8,
            CoreBridgeError::InvalidChain => 0x10,
            CoreBridgeError::InvalidGovernanceEmitter => 0x20,
            CoreBridgeError::InvalidGovernanceAction => 0x22,
            CoreBridgeError::LatestGuardianSetRequired => 0x24,
            CoreBridgeError::GovernanceForAnotherChain => 0x26,
            CoreBridgeError::InvalidGovernanceVaa => 0x28,
            CoreBridgeError::InsufficientFees => 0x100,
            CoreBridgeError::EmitterMismatch => 0x102,
            CoreBridgeError::NotReadyForPublishing => 0x104,
            CoreBridgeError::InvalidPreparedMessage => 0x106,
            CoreBridgeError::ExecutableEmitter => 0x108,
            CoreBridgeError::LegacyEmitter => 0x10a,
            CoreBridgeError::InvalidSignatureSet => 0x200,
            CoreBridgeError::InvalidMessageHash => 0x202,
            CoreBridgeError::NoQuorum => 0x203,
            CoreBridgeError::MessageMismatch => 0x204,
            CoreBridgeError::NotEnoughLamports => 0x400,
            CoreBridgeError::InvalidFeeRecipient => 0x402,
            CoreBridgeError::ImplementationMismatch => 0x500,
            CoreBridgeError::InvalidGuardianSetIndex => 0x600,
            CoreBridgeError::GuardianSetMismatch => 0x700,
            CoreBridgeError::InstructionAtWrongIndex => 0x702,
            CoreBridgeError::EmptySigVerifyInstruction => 0x703,
            CoreBridgeError::InvalidSigVerifyInstruction => 0x704,
            CoreBridgeError::GuardianSetExpired => 0x706,
            CoreBridgeError::InvalidGuardianKeyRecovery => 0x708,
            CoreBridgeError::SignerIndicesMismatch => 0x70a,
            CoreBridgeError::PayloadSizeMismatch => 0x800,
            CoreBridgeError::ZeroGuardians => 0x1010,
            CoreBridgeError::GuardianZeroAddress => 0x1020,
            CoreBridgeError::DuplicateGuardianAddress => 0x1030,
            CoreBridgeError::MessageAlreadyPublished => 0x1040,
            CoreBridgeError::VaaWritingDisallowed => 0x1050,
            CoreBridgeError::VaaAlreadyVerified => 0x1060,
            CoreBridgeError::InvalidGuardianIndex => 0x1070,
            CoreBridgeError::InvalidSignature => 0x1080,
            CoreBridgeError::UnverifiedVaa => 0x10a0,
            CoreBridgeError::VaaStillProcessing => 0x10a2,
            CoreBridgeError::InWritingStatus => 0x10a4,
            CoreBridgeError::NotInWritingStatus => 0x10a6,
            CoreBridgeError::InvalidMessageStatus => 0x10a8,
            CoreBridgeError::HashNotComputed => 0x10aa,
            CoreBridgeError::InvalidVaaVersion => 0x10ac,
            CoreBridgeError::InvalidCreatedAccountSize => 0x10ae,
            CoreBridgeError::DataOverflow => 0x10b0,
            CoreBridgeError::ExceedsMaxPayloadSize => 0x10b2,
            CoreBridgeError::CannotParseVaa => 0x10b4,
            CoreBridgeError::EmitterAuthorityMismatch => 0x10b6,
            CoreBridgeError::InvalidProgramEmitter => 0x10b8,
            CoreBridgeError::WriteAuthorityMismatch => 0x10ba,
            CoreBridgeError::PostedVaaPayloadTooLarge => 0x10bc,
            CoreBridgeError::ExecutableDisallowed => 0x10be,
        }
    }

    /// The error code reported on chain: the discriminant plus [`ERROR_CODE_OFFSET`].
    pub fn code(&self) -> (r: u32)
        ensures
            r == error_code_number(*self),
            r == error_discriminant(*self) + ERROR_CODE_OFFSET,
    {
        self.discriminant() + ERROR_CODE_OFFSET
    }

    /// Gets the name of this error.
    pub fn name(&self) -> (r: String)
        ensures
            r@ == error_name(*self),
    {
        let s: &str = match self {
            CoreBridgeError::InvalidInstructionArgument => "InvalidInstructionArgument",
            CoreBridgeError::AccountNotZeroed => "AccountNotZeroed",
            CoreBridgeError::InvalidDataConversion => "InvalidDataConversion",
            CoreBridgeError::U64Overflow => "U64Overflow",
            CoreBridgeError::InvalidComputeSize => "InvalidComputeSize",
            CoreBridgeError::InvalidChain => "InvalidChain",
            CoreBridgeError::InvalidGovernanceEmitter => "InvalidGovernanceEmitter",
            CoreBridgeError::InvalidGovernanceAction => "InvalidGovernanceAction",
            CoreBridgeError::LatestGuardianSetRequired => "LatestGuardianSetRequired",
            CoreBridgeError::GovernanceForAnotherChain => "GovernanceForAnotherChain",
            CoreBridgeError::InvalidGovernanceVaa => "InvalidGovernanceVaa",
            CoreBridgeError::InsufficientFees => "InsufficientFees",
            CoreBridgeError::EmitterMismatch => "EmitterMismatch",
            CoreBridgeError::NotReadyForPublishing => "NotReadyForPublishing",
            CoreBridgeError::InvalidPreparedMessage => "InvalidPreparedMessage",
            CoreBridgeError::ExecutableEmitter => "ExecutableEmitter",
            CoreBridgeError::LegacyEmitter => "LegacyEmitter",
            CoreBridgeError::InvalidSignatureSet => "InvalidSignatureSet",
            CoreBridgeError::InvalidMessageHash => "InvalidMessageHash",
            CoreBridgeError::NoQuorum => "NoQuorum",
            CoreBridgeError::MessageMismatch => "MessageMismatch",
            CoreBridgeError::NotEnoughLamports => "NotEnoughLamports",
            CoreBridgeError::InvalidFeeRecipient => "InvalidFeeRecipient",
            CoreBridgeError::ImplementationMismatch => "ImplementationMismatch",
            CoreBridgeError::InvalidGuardianSetIndex => "InvalidGuardianSetIndex",
            CoreBridgeError::GuardianSetMismatch => "GuardianSetMismatch",
            CoreBridgeError::InstructionAtWrongIndex => "InstructionAtWrongIndex",
            CoreBridgeError::EmptySigVerifyInstruction => "EmptySigVerifyInstruction",
            CoreBridgeError::InvalidSigVerifyInstruction => "InvalidSigVerifyInstruction",
            CoreBridgeError::GuardianSetExpired => "GuardianSetExpired",
            CoreBridgeError::InvalidGuardianKeyRecovery => "InvalidGuardianKeyRecovery",
            CoreBridgeError::SignerIndicesMismatch => "SignerIndicesMismatch",
            CoreBridgeError::PayloadSizeMismatch => "PayloadSizeMismatch",
            CoreBridgeError::ZeroGuardians => "ZeroGuardians",
            CoreBridgeError::GuardianZeroAddress => "GuardianZeroAddress",
            CoreBridgeError::DuplicateGuardianAddress => "DuplicateGuardianAddress",
            CoreBridgeError::MessageAlreadyPublished => "MessageAlreadyPublished",
            CoreBridgeError::VaaWritingDisallowed => "VaaWritingDisallowed",
            CoreBridgeError::VaaAlreadyVerified => "VaaAlreadyVerified",
            CoreBridgeError::InvalidGuardianIndex => "InvalidGuardianIndex",
            CoreBridgeError::InvalidSignature => "InvalidSignature",
            CoreBridgeError::UnverifiedVaa => "UnverifiedVaa",
            CoreBridgeError::VaaStillProcessing => "VaaStillProcessing",
            CoreBridgeError::InWritingStatus => "InWritingStatus",
            CoreBridgeError::NotInWritingStatus => "NotInWritingStatus",
            CoreBridgeError::InvalidMessageStatus => "InvalidMessageStatus",
            CoreBridgeError::HashNotComputed => "HashNotComputed",
            CoreBridgeError::InvalidVaaVersion => "InvalidVaaVersion",
            CoreBridgeError::InvalidCreatedAccountSize => "InvalidCreatedAccountSize",
            CoreBridgeError::DataOverflow => "DataOverflow",
            CoreBridgeError::ExceedsMaxPayloadSize => "ExceedsMaxPayloadSize",
            CoreBridgeError::CannotParseVaa => "CannotParseVaa",
            CoreBridgeError::EmitterAuthorityMismatch => "EmitterAuthorityMismatch",
            CoreBridgeError::InvalidProgramEmitter => "InvalidProgramEmitter",
            CoreBridgeError::WriteAuthorityMismatch => "WriteAuthorityMismatch",
            CoreBridgeError::PostedVaaPayloadTooLarge => "PostedVaaPayloadTooLarge",
            CoreBridgeError::ExecutableDisallowed => "ExecutableDisallowed",
        };
        s.to_owned()
    }

    /// Gets the message of this error, which is what displaying it prints.
    pub fn msg(&self) -> (r: String)
        ensures
            r@ == error_message(*self),
    {
        match self {
            CoreBridgeError::ExceedsMaxPayloadSize => "ExceedsMaxPayloadSize (30KB)".to_owned(),
            _ => self.name(),
        }
    }
}

impl From<CoreBridgeError> for u32 {
    fn from(e: CoreBridgeError) -> (r: u32) {
        e.code()
    }
}

impl vstd::std_specs::convert::FromSpecImpl<CoreBridgeError> for u32 {
    open spec fn obeys_from_spec() -> bool {
        true
    }

    open spec fn from_spec(e: CoreBridgeError) -> u32 {
        error_code_number(e)
    }
}

/// Distinct errors are reported under distinct codes, so a code names its error.
pub proof fn lemma_error_codes_distinct(a: CoreBridgeError, b: CoreBridgeError)
    requires
        a != b,
    ensures
        error_code_number(a) != error_code_number(b),
{
}

/// Every error code lies in the range reserved for user defined errors.
pub proof fn lemma_error_code_range(e: CoreBridgeError)
    ensures
        ERROR_CODE_OFFSET < error_code_number(e) < ERROR_CODE_OFFSET + 0x2000,
{
}

/// The program's error table: each error's on-chain code is 6000 plus the discriminant that the
/// table assigns it, and its name is the variant's name.
pub proof fn lemma_error_table()
    ensures
        error_discriminant(CoreBridgeError::InvalidInstructionArgument) == 0x2,
        error_code_number(CoreBridgeError::InvalidInstructionArgument) == 6002,
        error_name(CoreBridgeError::InvalidInstructionArgument) == "InvalidInstructionArgument"@,
        error_discriminant(CoreBridgeError::AccountNotZeroed) == 0x3,
        error_code_number(CoreBridgeError::AccountNotZeroed) == 6003,
        error_name(CoreBridgeError::AccountNotZeroed) == "AccountNotZeroed"@,
        error_discriminant(CoreBridgeError::InvalidDataConversion) == 0x4,
        error_code_number(CoreBridgeError::InvalidDataConversion) == 6004,
        error_name(CoreBridgeError::InvalidDataConversion) == "InvalidDataConversion"@,
        error_discriminant(CoreBridgeError::U64Overflow) == 0x6,
        error_code_number(CoreBridgeError::U64Overflow) == 6006,
        error_name(CoreBridgeError::U64Overflow) == "U64Overflow"@,
        error_discriminant(CoreBridgeError::InvalidComputeSize) == 0x8,
        error_code_number(CoreBridgeError::InvalidComputeSize) == 6008,
        error_name(CoreBridgeError::InvalidComputeSize) == "InvalidComputeSize"@,
        error_discriminant(CoreBridgeError::InvalidChain) == 0x10,
        error_code_number(CoreBridgeError::InvalidChain) == 6016,
        error_name(CoreBridgeError::InvalidChain) == "InvalidChain"@,
        error_discriminant(CoreBridgeError::InvalidGovernanceEmitter) == 0x20,
        error_code_number(CoreBridgeError::InvalidGovernanceEmitter) == 6032,
        error_name(CoreBridgeError::InvalidGovernanceEmitter) == "InvalidGovernanceEmitter"@,
        error_discriminant(CoreBridgeError::InvalidGovernanceAction) == 0x22,
        error_code_number(CoreBridgeError::InvalidGovernanceAction) == 6034,
        error_name(CoreBridgeError::InvalidGovernanceAction) == "InvalidGovernanceAction"@,
        error_discriminant(CoreBridgeError::LatestGuardianSetRequired) == 0x24,
        error_code_number(CoreBridgeError::LatestGuardianSetRequired) == 6036,
        error_name(CoreBridgeError::LatestGuardianSetRequired) == "LatestGuardianSetRequired"@,
        error_discriminant(CoreBridgeError::GovernanceForAnotherChain) == 0x26,
        error_code_number(CoreBridgeError::GovernanceForAnotherChain) == 6038,
        error_name(CoreBridgeError::GovernanceForAnotherChain) == "GovernanceForAnotherChain"@,
        error_discriminant(CoreBridgeError::InvalidGovernanceVaa) == 0x28,
        error_code_number(CoreBridgeError::InvalidGovernanceVaa) == 6040,
        error_name(CoreBridgeError::InvalidGovernanceVaa) == "InvalidGovernanceVaa"@,
        error_discriminant(CoreBridgeError::InsufficientFees) == 0x100,
        error_code_number(CoreBridgeError::InsufficientFees) == 6256,
        error_name(CoreBridgeError::InsufficientFees) == "InsufficientFees"@,
        error_discriminant(CoreBridgeError::EmitterMismatch) == 0x102,
        error_code_number(CoreBridgeError::EmitterMismatch) == 6258,
        error_name(CoreBridgeError::EmitterMismatch) == "EmitterMismatch"@,
        error_discriminant(CoreBridgeError::NotReadyForPublishing) == 0x104,
        error_code_number(CoreBridgeError::NotReadyForPublishing) == 6260,
        error_name(CoreBridgeError::NotReadyForPublishing) == "NotReadyForPublishing"@,
        error_discriminant(CoreBridgeError::InvalidPreparedMessage) == 0x106,
        error_code_number(CoreBridgeError::InvalidPreparedMessage) == 6262,
        error_name(CoreBridgeError::InvalidPreparedMessage) == "InvalidPreparedMessage"@,
        error_discriminant(CoreBridgeError::ExecutableEmitter) == 0x108,
        error_code_number(CoreBridgeError::ExecutableEmitter) == 6264,
        error_name(CoreBridgeError::ExecutableEmitter) == "ExecutableEmitter"@,
        error_discriminant(CoreBridgeError::LegacyEmitter) == 0x10a,
        error_code_number(CoreBridgeError::LegacyEmitter) == 6266,
        error_name(CoreBridgeError::LegacyEmitter) == "LegacyEmitter"@,
        error_discriminant(CoreBridgeError::InvalidSignatureSet) == 0x200,
        error_code_number(CoreBridgeError::InvalidSignatureSet) == 6512,
        error_name(CoreBridgeError::InvalidSignatureSet) == "InvalidSignatureSet"@,
        error_discriminant(CoreBridgeError::InvalidMessageHash) == 0x202,
        error_code_number(CoreBridgeError::InvalidMessageHash) == 6514,
        error_name(CoreBridgeError::InvalidMessageHash) == "InvalidMessageHash"@,
        error_discriminant(CoreBridgeError::NoQuorum) == 0x203,
        error_code_number(CoreBridgeError::NoQuorum) == 6515,
        error_name(CoreBridgeError::NoQuorum) == "NoQuorum"@,
        error_discriminant(CoreBridgeError::MessageMismatch) == 0x204,
        error_code_number(CoreBridgeError::MessageMismatch) == 6516,
        error_name(CoreBridgeError::MessageMismatch) == "MessageMismatch"@,
        error_discriminant(CoreBridgeError::NotEnoughLamports) == 0x400,
        error_code_number(CoreBridgeError::NotEnoughLamports) == 7024,
        error_name(CoreBridgeError::NotEnoughLamports) == "NotEnoughLamports"@,
        error_discriminant(CoreBridgeError::InvalidFeeRecipient) == 0x402,
        error_code_number(CoreBridgeError::InvalidFeeRecipient) == 7026,
        error_name(CoreBridgeError::InvalidFeeRecipient) == "InvalidFeeRecipient"@,
        error_discriminant(CoreBridgeError::ImplementationMismatch) == 0x500,
        error_code_number(CoreBridgeError::ImplementationMismatch) == 7280,
        error_name(CoreBridgeError::ImplementationMismatch) == "ImplementationMismatch"@,
        error_discriminant(CoreBridgeError::InvalidGuardianSetIndex) == 0x600,
        error_code_number(CoreBridgeError::InvalidGuardianSetIndex) == 7536,
        error_name(CoreBridgeError::InvalidGuardianSetIndex) == "InvalidGuardianSetIndex"@,
        error_discriminant(CoreBridgeError::GuardianSetMismatch) == 0x700,
        error_code_number(CoreBridgeError::GuardianSetMismatch) == 7792,
        error_name(CoreBridgeError::GuardianSetMismatch) == "GuardianSetMismatch"@,
        error_discriminant(CoreBridgeError::InstructionAtWrongIndex) == 0x702,
        error_code_number(CoreBridgeError::InstructionAtWrongIndex) == 7794,
        error_name(CoreBridgeError::InstructionAtWrongIndex) == "InstructionAtWrongIndex"@,
        error_discriminant(CoreBridgeError::EmptySigVerifyInstruction) == 0x703,
        error_code_number(CoreBridgeError::EmptySigVerifyInstruction) == 7795,
        error_name(CoreBridgeError::EmptySigVerifyInstruction) == "EmptySigVerifyInstruction"@,
        error_discriminant(CoreBridgeError::InvalidSigVerifyInstruction) == 0x704,
        error_code_number(CoreBridgeError::InvalidSigVerifyInstruction) == 7796,
        error_name(CoreBridgeError::InvalidSigVerifyInstruction) == "InvalidSigVerifyInstruction"@,
        error_discriminant(CoreBridgeError::GuardianSetExpired) == 0x706,
        error_code_number(CoreBridgeError::GuardianSetExpired) == 7798,
        error_name(CoreBridgeError::GuardianSetExpired) == "GuardianSetExpired"@,
        error_discriminant(CoreBridgeError::InvalidGuardianKeyRecovery) == 0x708,
        error_code_number(CoreBridgeError::InvalidGuardianKeyRecovery) == 7800,
        error_name(CoreBridgeError::InvalidGuardianKeyRecovery) == "InvalidGuardianKeyRecovery"@,
        error_discriminant(CoreBridgeError::SignerIndicesMismatch) == 0x70a,
        error_code_number(CoreBridgeError::SignerIndicesMismatch) == 7802,
        error_name(CoreBridgeError::SignerIndicesMismatch) == "SignerIndicesMismatch"@,
        error_discriminant(CoreBridgeError::PayloadSizeMismatch) == 0x800,
        error_code_number(CoreBridgeError::PayloadSizeMismatch) == 8048,
        error_name(CoreBridgeError::PayloadSizeMismatch) == "PayloadSizeMismatch"@,
        error_discriminant(CoreBridgeError::ZeroGuardians) == 0x1010,
        error_code_number(CoreBridgeError::ZeroGuardians) == 10112,
        error_name(CoreBridgeError::ZeroGuardians) == "ZeroGuardians"@,
        error_discriminant(CoreBridgeError::GuardianZeroAddress) == 0x1020,
        error_code_number(CoreBridgeError::GuardianZeroAddress) == 10128,
        error_name(CoreBridgeError::GuardianZeroAddress) == "GuardianZeroAddress"@,
        error_discriminant(CoreBridgeError::DuplicateGuardianAddress) == 0x1030,
        error_code_number(CoreBridgeError::DuplicateGuardianAddress) == 10144,
        error_name(CoreBridgeError::DuplicateGuardianAddress) == "DuplicateGuardianAddress"@,
        error_discriminant(CoreBridgeError::MessageAlreadyPublished) == 0x1040,
        error_code_number(CoreBridgeError::MessageAlreadyPublished) == 10160,
        error_name(CoreBridgeError::MessageAlreadyPublished) == "MessageAlreadyPublished"@,
        error_discriminant(CoreBridgeError::VaaWritingDisallowed) == 0x1050,
        error_code_number(CoreBridgeError::VaaWritingDisallowed) == 10176,
        error_name(CoreBridgeError::VaaWritingDisallowed) == "VaaWritingDisallowed"@,
        error_discriminant(CoreBridgeError::VaaAlreadyVerified) == 0x1060,
        error_code_number(CoreBridgeError::VaaAlreadyVerified) == 10192,
        error_name(CoreBridgeError::VaaAlreadyVerified) == "VaaAlreadyVerified"@,
        error_discriminant(CoreBridgeError::InvalidGuardianIndex) == 0x1070,
        error_code_number(CoreBridgeError::InvalidGuardianIndex) == 10208,
        error_name(CoreBridgeError::InvalidGuardianIndex) == "InvalidGuardianIndex"@,
        error_discriminant(CoreBridgeError::InvalidSignature) == 0x1080,
        error_code_number(CoreBridgeError::InvalidSignature) == 10224,
        error_name(CoreBridgeError::InvalidSignature) == "InvalidSignature"@,
        error_discriminant(CoreBridgeError::UnverifiedVaa) == 0x10a0,
        error_code_number(CoreBridgeError::UnverifiedVaa) == 10256,
        error_name(CoreBridgeError::UnverifiedVaa) == "UnverifiedVaa"@,
        error_discriminant(CoreBridgeError::VaaStillProcessing) == 0x10a2,
        error_code_number(CoreBridgeError::VaaStillProcessing) == 10258,
        error_name(CoreBridgeError::VaaStillProcessing) == "VaaStillProcessing"@,
        error_discriminant(CoreBridgeError::InWritingStatus) == 0x10a4,
        error_code_number(CoreBridgeError::InWritingStatus) == 10260,
        error_name(CoreBridgeError::InWritingStatus) == "InWritingStatus"@,
        error_discriminant(CoreBridgeError::NotInWritingStatus) == 0x10a6,
        error_code_number(CoreBridgeError::NotInWritingStatus) == 10262,
        error_name(CoreBridgeError::NotInWritingStatus) == "NotInWritingStatus"@,
        error_discriminant(CoreBridgeError::InvalidMessageStatus) == 0x10a8,
        error_code_number(CoreBridgeError::InvalidMessageStatus) == 10264,
        error_name(CoreBridgeError::InvalidMessageStatus) == "InvalidMessageStatus"@,
        error_discriminant(CoreBridgeError::HashNotComputed) == 0x10aa,
        error_code_number(CoreBridgeError::HashNotComputed) == 10266,
        error_name(CoreBridgeError::HashNotComputed) == "HashNotComputed"@,
        error_discriminant(CoreBridgeError::InvalidVaaVersion) == 0x10ac,
        error_code_number(CoreBridgeError::InvalidVaaVersion) == 10268,
        error_name(CoreBridgeError::InvalidVaaVersion) == "InvalidVaaVersion"@,
        error_discriminant(CoreBridgeError::InvalidCreatedAccountSize) == 0x10ae,
        error_code_number(CoreBridgeError::InvalidCreatedAccountSize) == 10270,
        error_name(CoreBridgeError::InvalidCreatedAccountSize) == "InvalidCreatedAccountSize"@,
        error_discriminant(CoreBridgeError::DataOverflow) == 0x10b0,
        error_code_number(CoreBridgeError::DataOverflow) == 10272,
        error_name(CoreBridgeError::DataOverflow) == "DataOverflow"@,
        error_discriminant(CoreBridgeError::ExceedsMaxPayloadSize) == 0x10b2,
        error_code_number(CoreBridgeError::ExceedsMaxPayloadSize) == 10274,
        error_name(CoreBridgeError::ExceedsMaxPayloadSize) == "ExceedsMaxPayloadSize"@,
        error_discriminant(CoreBridgeError::CannotParseVaa) == 0x10b4,
        error_code_number(CoreBridgeError::CannotParseVaa) == 10276,
        error_name(CoreBridgeError::CannotParseVaa) == "CannotParseVaa"@,
        error_discriminant(CoreBridgeError::EmitterAuthorityMismatch) == 0x10b6,
        error_code_number(CoreBridgeError::EmitterAuthorityMismatch) == 10278,
        error_name(CoreBridgeError::EmitterAuthorityMismatch) == "EmitterAuthorityMismatch"@,
        error_discriminant(CoreBridgeError::InvalidProgramEmitter) == 0x10b8,
        error_code_number(CoreBridgeError::InvalidProgramEmitter) == 10280,
        error_name(CoreBridgeError::InvalidProgramEmitter) == "InvalidProgramEmitter"@,
        error_discriminant(CoreBridgeError::WriteAuthorityMismatch) == 0x10ba,
        error_code_number(CoreBridgeError::WriteAuthorityMismatch) == 10282,
        error_name(CoreBridgeError::WriteAuthorityMismatch) == "WriteAuthorityMismatch"@,
        error_discriminant(CoreBridgeError::PostedVaaPayloadTooLarge) == 0x10bc,
        error_code_number(CoreBridgeError::PostedVaaPayloadTooLarge) == 10284,
        error_name(CoreBridgeError::PostedVaaPayloadTooLarge) == "PostedVaaPayloadTooLarge"@,
        error_discriminant(CoreBridgeError::ExecutableDisallowed) == 0x10be,
        error_code_number(CoreBridgeError::ExecutableDisallowed) == 10286,
        error_name(CoreBridgeError::ExecutableDisallowed) == "ExecutableDisallowed"@,
        error_message(CoreBridgeError::ExceedsMaxPayloadSize) == "ExceedsMaxPayloadSize (30KB)"@,
        forall|e: CoreBridgeError|
            e != CoreBridgeError::ExceedsMaxPayloadSize ==> #[trigger] error_message(e) == error_name(e),
{
}

} // verus!
