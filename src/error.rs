use vstd::prelude::*;

verus! {

/// The errors of this library: one variant for each error code of the native
/// library, one for a code it does not know, and one for text that cannot be
/// handed to it.
#[derive(Debug, Clone, Copy, PartialEq, Eq, Structural)]
pub enum Error {
    /// The native library reported success where an error was expected.
    NoError,
    Memory,
    System,
    BadPerms,
    NotAFile,
    NotADir,
    WrongArgs,
    DiskSpace,
    HandleNull,
    HandleNotNull,
    HandleLock,
    DbOpen,
    DbCreate,
    DbNull,
    DbNotNull,
    DbNotFound,
    DbInvalid,
    DbInvalidSig,
    DbVersion,
    DbWrite,
    DbRemove,
    ServerBadUrl,
    ServerNone,
    TransNotNull,
    TransNull,
    TransDupTarget,
    TransDupFilename,
    TransNotInitialized,
    TransNotPrepared,
    TransAbort,
    TransType,
    TransNotLocked,
    TransHookFailed,
    PkgNotFound,
    PkgIgnored,
    PkgInvalid,
    PkgInvalidChecksum,
    PkgInvalidSig,
    PkgMissingSig,
    PkgOpen,
    PkgCantRemove,
    PkgInvalidName,
    PkgInvalidArch,
    SigMissing,
    SigInvalid,
    UnsatisfiedDeps,
    ConflictingDeps,
    FileConflicts,
    RetrievePrepare,
    Retrieve,
    InvalidRegex,
    Libarchive,
    Libcurl,
    ExternalDownload,
    Gpgme,
    MissingCapabilitySignatures,
    /// An error code that the native library does not define.
    Unknown(i32),
    /// Text meant for the native library holds a nul byte at this position.
    NulByte(usize),
}

/// The result type of every fallible operation of this library.
pub type Result<T> = core::result::Result<T, Error>;

/// The typed error that a native error code stands for.
pub open spec fn error_from_code(code: i32) -> Error {
    match code {
        0 => Error::NoError,
        1 => Error::Memory,
        2 => Error::System,
        3 => Error::BadPerms,
        4 => Error::NotAFile,
        5 => Error::NotADir,
        6 => Error::WrongArgs,
        7 => Error::DiskSpace,
        8 => Error::HandleNull,
        9 => Error::HandleNotNull,
        10 => Error::HandleLock,
        11 => Error::DbOpen,
        12 => Error::DbCreate,
        13 => Error::DbNull,
        14 => Error::DbNotNull,
        15 => Error::DbNotFound,
        16 => Error::DbInvalid,
        17 => Error::DbInvalidSig,
        18 => Error::DbVersion,
        19 => Error::DbWrite,
        20 => Error::DbRemove,
        21 => Error::ServerBadUrl,
        22 => Error::ServerNone,
        23 => Error::TransNotNull,
        24 => Error::TransNull,
        25 => Error::TransDupTarget,
        26 => Error::TransDupFilename,
        27 => Error::TransNotInitialized,
        28 => Error::TransNotPrepared,
        29 => Error::TransAbort,
        30 => Error::TransType,
        31 => Error::TransNotLocked,
        32 => Error::TransHookFailed,
        33 => Error::PkgNotFound,
        34 => Error::PkgIgnored,
        35 => Error::PkgInvalid,
        36 => Error::PkgInvalidChecksum,
        37 => Error::PkgInvalidSig,
        38 => Error::PkgMissingSig,
        39 => Error::PkgOpen,
        40 => Error::PkgCantRemove,
        41 => Error::PkgInvalidName,
        42 => Error::PkgInvalidArch,
        43 => Error::SigMissing,
        44 => Error::SigInvalid,
        45 => Error::UnsatisfiedDeps,
        46 => Error::ConflictingDeps,
        47 => Error::FileConflicts,
        48 => Error::RetrievePrepare,
        49 => Error::Retrieve,
        50 => Error::InvalidRegex,
        51 => Error::Libarchive,
        52 => Error::Libcurl,
        53 => Error::ExternalDownload,
        54 => Error::Gpgme,
        55 => Error::MissingCapabilitySignatures,
        _ => Error::Unknown(code),
    }
}

impl Error {
    /// Decodes a native error code; a code that the native library does not
    /// define is kept, as `Unknown`, rather than dropped.
    pub fn from_code(code: i32) -> (e: Error)
        ensures
            e == error_from_code(code),
    {
        match code {
            0 => Error::NoError,
            1 => Error::Memory,
            2 => Error::System,
            3 => Error::BadPerms,
            4 => Error::NotAFile,
            5 => Error::NotADir,
            6 => Error::WrongArgs,
            7 => Error::DiskSpace,
            8 => Error::HandleNull,
            9 => Error::HandleNotNull,
            10 => Error::HandleLock,
            11 => Error::DbOpen,
            12 => Error::DbCreate,
            13 => Error::DbNull,
            14 => Error::DbNotNull,
            15 => Error::DbNotFound,
            16 => Error::DbInvalid,
            17 => Error::DbInvalidSig,
            18 => Error::DbVersion,
            19 => Error::DbWrite,
            20 => Error::DbRemove,
            21 => Error::ServerBadUrl,
            22 => Error::ServerNone,
            23 => Error::TransNotNull,
            24 => Error::TransNull,
            25 => Error::TransDupTarget,
            26 => Error::TransDupFilename,
            27 => Error::TransNotInitialized,
            28 => Error::TransNotPrepared,
            29 => Error::TransAbort,
            30 => Error::TransType,
            31 => Error::TransNotLocked,
            32 => Error::TransHookFailed,
            33 => Error::PkgNotFound,
            34 => Error::PkgIgnored,
            35 => Error::PkgInvalid,
            36 => Error::PkgInvalidChecksum,
            37 => Error::PkgInvalidSig,
            38 => Error::PkgMissingSig,
            39 => Error::PkgOpen,
            40 => Error::PkgCantRemove,
            41 => Error::PkgInvalidName,
            42 => Error::PkgInvalidArch,
            43 => Error::SigMissing,
            44 => Error::SigInvalid,
            45 => Error::UnsatisfiedDeps,
            46 => Error::ConflictingDeps,
            47 => Error::FileConflicts,
            48 => Error::RetrievePrepare,
            49 => Error::Retrieve,
            50 => Error::InvalidRegex,
            51 => Error::Libarchive,
            52 => Error::Libcurl,
            53 => Error::ExternalDownload,
            54 => Error::Gpgme,
            55 => Error::MissingCapabilitySignatures,
            _ => Error::Unknown(code),
        }
    }
}

} // verus!
