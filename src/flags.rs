use vstd::prelude::*;

verus! {

/// Every bit that a signature level may hold.
pub const SIG_ALL: u32 = 0x4000_3C0F;

/// Every bit that a package validation may hold.
pub const VALIDATION_ALL: u32 = 0xF;

/// Whether a bit pattern is made only of known signature-level bits.
pub open spec fn sig_bits_valid(bits: u32) -> bool {
    bits & !SIG_ALL == 0
}

/// Whether a bit pattern is made only of known validation bits.
pub open spec fn validation_bits_valid(bits: u32) -> bool {
    bits & !VALIDATION_ALL == 0
}

/// The native integer that a signature level is handed over as.
pub open spec fn sig_to_native(bits: u32) -> i32 {
    bits as i32
}

/// The bits that a native signature-level integer decodes to; none where it
/// holds a bit that no signature level defines.
pub open spec fn sig_from_native(v: i32) -> Option<u32> {
    if v >= 0 && sig_bits_valid(v as u32) {
        Some(v as u32)
    } else {
        None
    }
}

/// Each single signature-level flag is a known bit.
proof fn lemma_sig_flags_valid()
    ensures
        sig_bits_valid(0),
        sig_bits_valid(0x1),
        sig_bits_valid(0x2),
        sig_bits_valid(0x4),
        sig_bits_valid(0x8),
        sig_bits_valid(0x400),
        sig_bits_valid(0x800),
        sig_bits_valid(0x1000),
        sig_bits_valid(0x2000),
        sig_bits_valid(0x4000_0000),
{
    assert(
        (0u32 & !SIG_ALL == 0)
        && (0x1u32 & !SIG_ALL == 0)
        && (0x2u32 & !SIG_ALL == 0)
        && (0x4u32 & !SIG_ALL == 0)
        && (0x8u32 & !SIG_ALL == 0)
        && (0x400u32 & !SIG_ALL == 0)
        && (0x800u32 & !SIG_ALL == 0)
        && (0x1000u32 & !SIG_ALL == 0)
        && (0x2000u32 & !SIG_ALL == 0)
        && (0x4000_0000u32 & !SIG_ALL == 0)
    ) by (bit_vector);
}

/// How strictly signatures are checked, as a set of flags.
#[derive(Debug, Clone, Copy, PartialEq, Eq, Structural)]
pub struct SigLevel {
    bits: u32,
}

impl View for SigLevel {
    type V = u32;

    closed spec fn view(&self) -> u32 {
        self.bits
    }
}

impl SigLevel {
    #[verifier::type_invariant]
    closed spec fn inv(&self) -> bool {
        sig_bits_valid(self.bits)
    }

    /// No signature checks.
    pub fn none() -> (r: SigLevel)
        ensures
            r@ == 0,
    {
        proof {
            lemma_sig_flags_valid();
        }
        SigLevel { bits: 0 }
    }

    /// Packages must be signed.
    pub fn package() -> (r: SigLevel)
        ensures
            r@ == 0x1,
    {
        proof {
            lemma_sig_flags_valid();
        }
        SigLevel { bits: 0x1 }
    }

    /// A missing package signature is allowed.
    pub fn package_optional() -> (r: SigLevel)
        ensures
            r@ == 0x2,
    {
        proof {
            lemma_sig_flags_valid();
        }
        SigLevel { bits: 0x2 }
    }

    /// A package signature of marginal trust is allowed.
    pub fn package_marginal_ok() -> (r: SigLevel)
        ensures
            r@ == 0x4,
    {
        proof {
            lemma_sig_flags_valid();
        }
        SigLevel { bits: 0x4 }
    }

    /// A package signature of unknown trust is allowed.
    pub fn package_unknown_ok() -> (r: SigLevel)
        ensures
            r@ == 0x8,
    {
        proof {
            lemma_sig_flags_valid();
        }
        SigLevel { bits: 0x8 }
    }

    /// Databases must be signed.
    pub fn database() -> (r: SigLevel)
        ensures
            r@ == 0x400,
    {
        proof {
            lemma_sig_flags_valid();
        }
        SigLevel { bits: 0x400 }
    }

    /// A missing database signature is allowed.
    pub fn database_optional() -> (r: SigLevel)
        ensures
            r@ == 0x800,
    {
        proof {
            lemma_sig_flags_valid();
        }
        SigLevel { bits: 0x800 }
    }

    /// A database signature of marginal trust is allowed.
    pub fn database_marginal_ok() -> (r: SigLevel)
        ensures
            r@ == 0x1000,
    {
        proof {
            lemma_sig_flags_valid();
        }
        SigLevel { bits: 0x1000 }
    }

    /// A database signature of unknown trust is allowed.
    pub fn database_unknown_ok() -> (r: SigLevel)
        ensures
            r@ == 0x2000,
    {
        proof {
            lemma_sig_flags_valid();
        }
        SigLevel { bits: 0x2000 }
    }

    /// The session's default level applies.
    pub fn use_default() -> (r: SigLevel)
        ensures
            r@ == 0x4000_0000,
    {
        proof {
            lemma_sig_flags_valid();
        }
        SigLevel { bits: 0x4000_0000 }
    }

    /// The flags as bits; they are always known signature-level bits.
    pub fn bits(&self) -> (r: u32)
        ensures
            r == self@,
            sig_bits_valid(r),
    {
        proof {
            use_type_invariant(self);
        }
        self.bits
    }

    /// The level with exactly these bits; none where a bit is not a known flag
    /// (unknown bits are refused, never dropped).
    pub fn from_bits(bits: u32) -> (r: Option<SigLevel>)
        ensures
            r is Some <==> sig_bits_valid(bits),
            r matches Some(l) ==> l@ == bits,
    {
        if bits & !SIG_ALL == 0 {
            Some(SigLevel { bits })
        } else {
            None
        }
    }

    /// The flags of both levels.
    pub fn union(self, other: SigLevel) -> (r: SigLevel)
        ensures
            r@ == self@ | other@,
    {
        proof {
            use_type_invariant(&self);
            use_type_invariant(&other);
            let (a, b) = (self.bits, other.bits);
            assert((a | b) & !SIG_ALL == 0) by (bit_vector)
                requires
                    a & !SIG_ALL == 0,
                    b & !SIG_ALL == 0,
            ;
        }
        SigLevel { bits: self.bits | other.bits }
    }

    /// Whether every flag of `other` is set here.
    pub fn contains(&self, other: SigLevel) -> (r: bool)
        ensures
            r == (self@ & other@ == other@),
    {
        self.bits & other.bits == other.bits
    }

    /// The native integer that this level is handed over as.
    pub fn to_native(&self) -> (r: i32)
        ensures
            r == sig_to_native(self@),
            sig_bits_valid(self@),
    {
        proof {
            use_type_invariant(self);
        }
        self.bits as i32
    }

    /// Decodes a native signature-level integer; none where it holds a bit
    /// that no flag defines.
    pub fn from_native(v: i32) -> (r: Option<SigLevel>)
        ensures
            r is Some <==> sig_from_native(v) is Some,
            r matches Some(l) ==> sig_from_native(v) == Some(l@),
    {
        if v < 0 {
            None
        } else {
            SigLevel::from_bits(v as u32)
        }
    }
}

/// A signature level survives the trip to the native session and back: the
/// integer it is handed over as decodes to exactly its flags.
pub proof fn lemma_siglevel_native_round_trip(bits: u32)
    requires
        sig_bits_valid(bits),
    ensures
        sig_from_native(sig_to_native(bits)) == Some(bits),
{
    assert(bits & 0x8000_0000 == 0) by (bit_vector)
        requires
            bits & !SIG_ALL == 0,
    ;
    assert(bits < 0x8000_0000) by (bit_vector)
        requires
            bits & 0x8000_0000 == 0,
    ;
}

/// Each single validation flag is a known bit.
proof fn lemma_validation_flags_valid()
    ensures
        validation_bits_valid(0),
        validation_bits_valid(0x1),
        validation_bits_valid(0x2),
        validation_bits_valid(0x4),
        validation_bits_valid(0x8),
{
    assert(
        (0u32 & !VALIDATION_ALL == 0)
        && (0x1u32 & !VALIDATION_ALL == 0)
        && (0x2u32 & !VALIDATION_ALL == 0)
        && (0x4u32 & !VALIDATION_ALL == 0)
        && (0x8u32 & !VALIDATION_ALL == 0)
    ) by (bit_vector);
}

/// How a package's integrity was established, as a set of flags; no flag set
/// means it is not known.
#[derive(Debug, Clone, Copy, PartialEq, Eq, Structural)]
pub struct PackageValidation {
    bits: u32,
}

impl View for PackageValidation {
    type V = u32;

    closed spec fn view(&self) -> u32 {
        self.bits
    }
}

impl PackageValidation {
    #[verifier::type_invariant]
    closed spec fn inv(&self) -> bool {
        validation_bits_valid(self.bits)
    }

    /// It is not known how the package was validated.
    pub fn unknown() -> (r: PackageValidation)
        ensures
            r@ == 0,
    {
        proof {
            lemma_validation_flags_valid();
        }
        PackageValidation { bits: 0 }
    }

    /// The package was not validated.
    pub fn none() -> (r: PackageValidation)
        ensures
            r@ == 0x1,
    {
        proof {
            lemma_validation_flags_valid();
        }
        PackageValidation { bits: 0x1 }
    }

    /// The package was validated by its MD5 sum.
    pub fn md5sum() -> (r: PackageValidation)
        ensures
            r@ == 0x2,
    {
        proof {
            lemma_validation_flags_valid();
        }
        PackageValidation { bits: 0x2 }
    }

    /// The package was validated by its SHA-256 sum.
    pub fn sha256sum() -> (r: PackageValidation)
        ensures
            r@ == 0x4,
    {
        proof {
            lemma_validation_flags_valid();
        }
        PackageValidation { bits: 0x4 }
    }

    /// The package was validated by its signature.
    pub fn signature() -> (r: PackageValidation)
        ensures
            r@ == 0x8,
    {
        proof {
            lemma_validation_flags_valid();
        }
        PackageValidation { bits: 0x8 }
    }

    /// The flags as bits; they are always known validation bits.
    pub fn bits(&self) -> (r: u32)
        ensures
            r == self@,
            validation_bits_valid(r),
    {
        proof {
            use_type_invariant(self);
        }
        self.bits
    }

    /// The validation with exactly these bits; none where a bit is not a known
    /// flag.
    pub fn from_bits(bits: u32) -> (r: Option<PackageValidation>)
        ensures
            r is Some <==> validation_bits_valid(bits),
            r matches Some(p) ==> p@ == bits,
    {
        if bits & !VALIDATION_ALL == 0 {
            Some(PackageValidation { bits })
        } else {
            None
        }
    }

    /// Decodes the native validation integer; none where it holds a bit that no
    /// flag defines.
    pub fn from_native(v: i32) -> (r: Option<PackageValidation>)
        ensures
            r is Some <==> (v >= 0 && validation_bits_valid(v as u32)),
            r matches Some(p) ==> p@ == v as u32,
    {
        if v < 0 {
            None
        } else {
            PackageValidation::from_bits(v as u32)
        }
    }

    /// Whether every flag of `other` is set here.
    pub fn contains(&self, other: PackageValidation) -> (r: bool)
        ensures
            r == (self@ & other@ == other@),
    {
        self.bits & other.bits == other.bits
    }
}

/// Why a package is installed.
#[derive(Debug, Clone, Copy, PartialEq, Eq, Structural)]
pub enum PackageReason {
    /// It was asked for by name.
    Explicit,
    /// It was pulled in as a dependency.
    Depend,
    /// The reason is not known.
    Unknown,
}

/// The reason that a native reason code stands for, if any.
pub open spec fn reason_from_native(v: i32) -> Option<PackageReason> {
    match v {
        0 => Some(PackageReason::Explicit),
        1 => Some(PackageReason::Depend),
        2 => Some(PackageReason::Unknown),
        _ => None,
    }
}

impl PackageReason {
    /// Decodes a native reason code; none for a code that no reason has.
    pub fn from_native(v: i32) -> (r: Option<PackageReason>)
        ensures
            r == reason_from_native(v),
    {
        match v {
            0 => Some(PackageReason::Explicit),
            1 => Some(PackageReason::Depend),
            2 => Some(PackageReason::Unknown),
            _ => None,
        }
    }

    /// The native code of this reason.
    pub fn to_native(&self) -> (r: i32)
        ensures
            reason_from_native(r) == Some(*self),
    {
        match self {
            PackageReason::Explicit => 0,
            PackageReason::Depend => 1,
            PackageReason::Unknown => 2,
        }
    }
}

/// Where a package's data was loaded from.
#[derive(Debug, Clone, Copy, PartialEq, Eq, Structural)]
pub enum PackageFrom {
    /// A package file.
    File,
    /// The local database of installed packages.
    LocalDb,
    /// A sync database.
    SyncDb,
}

/// The origin that a native origin code stands for, if any.
pub open spec fn origin_from_native(v: i32) -> Option<PackageFrom> {
    match v {
        1 => Some(PackageFrom::File),
        2 => Some(PackageFrom::LocalDb),
        3 => Some(PackageFrom::SyncDb),
        _ => None,
    }
}

impl PackageFrom {
    /// Decodes a native origin code; none for a code that no origin has.
    pub fn from_native(v: i32) -> (r: Option<PackageFrom>)
        ensures
            r == origin_from_native(v),
    {
        match v {
            1 => Some(PackageFrom::File),
            2 => Some(PackageFrom::LocalDb),
            3 => Some(PackageFrom::SyncDb),
            _ => None,
        }
    }
}

/// The native integer that a boolean option is handed over as.
pub open spec fn bool_to_native_spec(b: bool) -> i32 {
    if b {
        1
    } else {
        0
    }
}

/// What a native boolean integer means: any value but zero is true.
pub open spec fn bool_from_native_spec(v: i32) -> bool {
    v != 0
}

/// Hands a boolean option over as a native integer.
pub fn bool_to_native(b: bool) -> (r: i32)
    ensures
        r == bool_to_native_spec(b),
{
    if b {
        1
    } else {
        0
    }
}

/// Reads a native boolean integer.
pub fn bool_from_native(v: i32) -> (r: bool)
    ensures
        r == bool_from_native_spec(v),
{
    v != 0
}

/// A boolean option survives the trip to the native session and back: what is
/// set is what is read.
pub proof fn lemma_bool_native_round_trip(b: bool)
    ensures
        bool_from_native_spec(bool_to_native_spec(b)) == b,
{
}

/// Decodes a native install date: zero means the package is not installed.
pub fn install_date_from_native(v: i64) -> (r: Option<i64>)
    ensures
        v == 0 <==> r is None,
        v != 0 ==> r == Some(v),
{
    if v == 0 {
        None
    } else {
        Some(v)
    }
}

} // verus!
