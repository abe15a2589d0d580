//! Severity and type selections, and their encoding as native bit flags.
//!
//! A selection is a record of independent booleans. The driver sees it as a
//! 32-bit mask with one fixed bit per flag. Encoding sets exactly the bits of
//! the selected flags; decoding tests exactly those bits and ignores every
//! other one, so that a mask carrying flags introduced by a later driver still
//! decodes.

use vstd::prelude::*;

verus! {

/// Native bit for diagnostic output from the loader and layers.
pub const SEVERITY_VERBOSE_BIT: u32 = 0x0000_0001;

/// Native bit for informational messages.
pub const SEVERITY_INFO_BIT: u32 = 0x0000_0010;

/// Native bit for warnings.
pub const SEVERITY_WARNING_BIT: u32 = 0x0000_0100;

/// Native bit for errors.
pub const SEVERITY_ERROR_BIT: u32 = 0x0000_1000;

/// Every severity bit that has a flag in [`MessageSeverity`].
pub const SEVERITY_KNOWN_BITS: u32 = 0x0000_1111;

/// Native bit for general events.
pub const TYPE_GENERAL_BIT: u32 = 0x0000_0001;

/// Native bit for events raised by the validation of API usage.
pub const TYPE_VALIDATION_BIT: u32 = 0x0000_0002;

/// Native bit for potentially non-optimal use.
pub const TYPE_PERFORMANCE_BIT: u32 = 0x0000_0004;

/// Every type bit that has a flag in [`MessageType`].
pub const TYPE_KNOWN_BITS: u32 = 0x0000_0007;

/// A selection of message severities. Every combination is valid, the empty
/// one too.
#[derive(Debug, Copy, Clone, PartialEq, Eq, Hash, Structural)]
pub struct MessageSeverity {
    /// Misuse that may end in undefined results or a crash.
    pub error: bool,
    /// Use that is unexpected and probably a mistake.
    pub warning: bool,
    /// Information that may help while debugging.
    pub information: bool,
    /// Diagnostic output from the loader and layers.
    pub verbose: bool,
}

/// A selection of message types. Every combination is valid, the empty one
/// too.
#[derive(Debug, Copy, Clone, PartialEq, Eq, Hash, Structural)]
pub struct MessageType {
    /// Some general event has occurred.
    pub general: bool,
    /// The validation of API usage has found something.
    pub validation: bool,
    /// The API is used in a way that may be slower than it has to be.
    pub performance: bool,
}

/// OR-ing with zero changes nothing.
proof fn lemma_or_zero(x: u32)
    by (bit_vector)
    ensures
        x | 0 == x,
        0 | x == x,
{
}

/// No bit of zero is set.
proof fn lemma_zero_and(x: u32)
    by (bit_vector)
    ensures
        0u32 & x == 0,
{
}

/// In an encoded severity selection each known bit is set exactly when its
/// flag is, and no other bit is set.
proof fn lemma_severity_bits(error: bool, warning: bool, information: bool, verbose: bool)
    by (bit_vector)
    ensures
        ({
            let bits = (if information { SEVERITY_INFO_BIT } else { 0u32 })
                | (if warning { SEVERITY_WARNING_BIT } else { 0u32 })
                | (if error { SEVERITY_ERROR_BIT } else { 0u32 })
                | (if verbose { SEVERITY_VERBOSE_BIT } else { 0u32 });
            &&& (bits & SEVERITY_ERROR_BIT != 0) == error
            &&& (bits & SEVERITY_WARNING_BIT != 0) == warning
            &&& (bits & SEVERITY_INFO_BIT != 0) == information
            &&& (bits & SEVERITY_VERBOSE_BIT != 0) == verbose
            &&& bits & !SEVERITY_KNOWN_BITS == 0
        }),
{
}

/// In an encoded type selection each known bit is set exactly when its flag
/// is, and no other bit is set.
proof fn lemma_type_bits(general: bool, validation: bool, performance: bool)
    by (bit_vector)
    ensures
        ({
            let bits = (if general { TYPE_GENERAL_BIT } else { 0u32 })
                | (if validation { TYPE_VALIDATION_BIT } else { 0u32 })
                | (if performance { TYPE_PERFORMANCE_BIT } else { 0u32 });
            &&& (bits & TYPE_GENERAL_BIT != 0) == general
            &&& (bits & TYPE_VALIDATION_BIT != 0) == validation
            &&& (bits & TYPE_PERFORMANCE_BIT != 0) == performance
            &&& bits & !TYPE_KNOWN_BITS == 0
        }),
{
}

/// Masking away the unknown severity bits keeps every known bit as it was,
/// and a mask is its known bits OR-ed together.
proof fn lemma_severity_mask(bits: u32)
    by (bit_vector)
    ensures
        (bits & SEVERITY_KNOWN_BITS) & SEVERITY_ERROR_BIT == bits & SEVERITY_ERROR_BIT,
        (bits & SEVERITY_KNOWN_BITS) & SEVERITY_WARNING_BIT == bits & SEVERITY_WARNING_BIT,
        (bits & SEVERITY_KNOWN_BITS) & SEVERITY_INFO_BIT == bits & SEVERITY_INFO_BIT,
        (bits & SEVERITY_KNOWN_BITS) & SEVERITY_VERBOSE_BIT == bits & SEVERITY_VERBOSE_BIT,
        bits & SEVERITY_KNOWN_BITS == (if bits & SEVERITY_INFO_BIT != 0 {
            SEVERITY_INFO_BIT
        } else {
            0u32
        }) | (if bits & SEVERITY_WARNING_BIT != 0 {
            SEVERITY_WARNING_BIT
        } else {
            0u32
        }) | (if bits & SEVERITY_ERROR_BIT != 0 {
            SEVERITY_ERROR_BIT
        } else {
            0u32
        }) | (if bits & SEVERITY_VERBOSE_BIT != 0 {
            SEVERITY_VERBOSE_BIT
        } else {
            0u32
        }),
{
}

/// Masking away the unknown type bits keeps every known bit as it was, and a
/// mask is its known bits OR-ed together.
proof fn lemma_type_mask(bits: u32)
    by (bit_vector)
    ensures
        (bits & TYPE_KNOWN_BITS) & TYPE_GENERAL_BIT == bits & TYPE_GENERAL_BIT,
        (bits & TYPE_KNOWN_BITS) & TYPE_VALIDATION_BIT == bits & TYPE_VALIDATION_BIT,
        (bits & TYPE_KNOWN_BITS) & TYPE_PERFORMANCE_BIT == bits & TYPE_PERFORMANCE_BIT,
        bits & TYPE_KNOWN_BITS == (if bits & TYPE_GENERAL_BIT != 0 {
            TYPE_GENERAL_BIT
        } else {
            0u32
        }) | (if bits & TYPE_VALIDATION_BIT != 0 {
            TYPE_VALIDATION_BIT
        } else {
            0u32
        }) | (if bits & TYPE_PERFORMANCE_BIT != 0 {
            TYPE_PERFORMANCE_BIT
        } else {
            0u32
        }),
{
}

impl MessageSeverity {
    /// The bit mask that stands for this selection.
    pub open spec fn bits(self) -> u32 {
        (if self.information { SEVERITY_INFO_BIT } else { 0u32 })
            | (if self.warning { SEVERITY_WARNING_BIT } else { 0u32 })
            | (if self.error { SEVERITY_ERROR_BIT } else { 0u32 })
            | (if self.verbose { SEVERITY_VERBOSE_BIT } else { 0u32 })
    }

    /// The selection that a bit mask stands for.
    pub open spec fn of_bits(bits: u32) -> MessageSeverity {
        MessageSeverity {
            error: bits & SEVERITY_ERROR_BIT != 0,
            warning: bits & SEVERITY_WARNING_BIT != 0,
            information: bits & SEVERITY_INFO_BIT != 0,
            verbose: bits & SEVERITY_VERBOSE_BIT != 0,
        }
    }

    /// Builds a `MessageSeverity` with all fields set to `false` except `error`.
    #[inline]
    pub fn errors() -> (s: MessageSeverity)
        ensures
            s == (MessageSeverity { error: true, warning: false, information: false, verbose: false }),
    {
        MessageSeverity { error: true, ..MessageSeverity::none() }
    }

    /// Builds a `MessageSeverity` with all fields set to `false` except `error`
    /// and `warning`.
    #[inline]
    pub fn errors_and_warnings() -> (s: MessageSeverity)
        ensures
            s == (MessageSeverity { error: true, warning: true, information: false, verbose: false }),
    {
        MessageSeverity { error: true, warning: true, ..MessageSeverity::none() }
    }

    /// Builds a `MessageSeverity` with all fields set to `false`.
    #[inline]
    pub fn none() -> (s: MessageSeverity)
        ensures
            s == (MessageSeverity { error: false, warning: false, information: false, verbose: false }),
    {
        MessageSeverity { error: false, warning: false, information: false, verbose: false }
    }

    /// Encodes the selection as the native bit mask: the bit of every selected
    /// severity, OR-ed together. Every selection is valid, the empty one too.
    pub fn encode(self) -> (bits: u32)
        ensures
            bits == self.bits(),
            MessageSeverity::of_bits(bits) == self,
            bits & !SEVERITY_KNOWN_BITS == 0,
    {
        let mut flags: u32 = 0;
        if self.information {
            flags |= SEVERITY_INFO_BIT;
        }
        proof {
            lemma_or_zero(SEVERITY_INFO_BIT);
            lemma_or_zero(flags);
        }
        if self.warning {
            flags |= SEVERITY_WARNING_BIT;
        }
        proof {
            lemma_or_zero(flags);
        }
        if self.error {
            flags |= SEVERITY_ERROR_BIT;
        }
        proof {
            lemma_or_zero(flags);
        }
        if self.verbose {
            flags |= SEVERITY_VERBOSE_BIT;
        }
        proof {
            lemma_severity_bits(self.error, self.warning, self.information, self.verbose);
        }
        flags
    }

    /// Decodes a native bit mask: a severity is selected exactly when its bit
    /// is set. Bits that belong to no severity are ignored.
    pub fn decode(bits: u32) -> (s: MessageSeverity)
        ensures
            s == MessageSeverity::of_bits(bits),
            s.bits() == bits & SEVERITY_KNOWN_BITS,
    {
        proof {
            lemma_severity_mask(bits);
        }
        MessageSeverity {
            information: (bits & SEVERITY_INFO_BIT) != 0,
            warning: (bits & SEVERITY_WARNING_BIT) != 0,
            error: (bits & SEVERITY_ERROR_BIT) != 0,
            verbose: (bits & SEVERITY_VERBOSE_BIT) != 0,
        }
    }
}

impl MessageType {
    /// The bit mask that stands for this selection.
    pub open spec fn bits(self) -> u32 {
        (if self.general { TYPE_GENERAL_BIT } else { 0u32 })
            | (if self.validation { TYPE_VALIDATION_BIT } else { 0u32 })
            | (if self.performance { TYPE_PERFORMANCE_BIT } else { 0u32 })
    }

    /// The selection that a bit mask stands for.
    pub open spec fn of_bits(bits: u32) -> MessageType {
        MessageType {
            general: bits & TYPE_GENERAL_BIT != 0,
            validation: bits & TYPE_VALIDATION_BIT != 0,
            performance: bits & TYPE_PERFORMANCE_BIT != 0,
        }
    }

    /// Builds a `MessageType` with general field set to `true`.
    #[inline]
    pub fn general() -> (t: MessageType)
        ensures
            t == (MessageType { general: true, validation: false, performance: false }),
    {
        MessageType { general: true, validation: false, performance: false }
    }

    /// Builds a `MessageType` with all fields set to `true`.
    #[inline]
    pub fn all() -> (t: MessageType)
        ensures
            t == (MessageType { general: true, validation: true, performance: true }),
    {
        MessageType { general: true, validation: true, performance: true }
    }

    /// Builds a `MessageType` with all fields set to `false`.
    #[inline]
    pub fn none() -> (t: MessageType)
        ensures
            t == (MessageType { general: false, validation: false, performance: false }),
    {
        MessageType { general: false, validation: false, performance: false }
    }

    /// Encodes the selection as the native bit mask: the bit of every selected
    /// type, OR-ed together. Every selection is valid, the empty one too.
    pub fn encode(self) -> (bits: u32)
        ensures
            bits == self.bits(),
            MessageType::of_bits(bits) == self,
            bits & !TYPE_KNOWN_BITS == 0,
    {
        let mut flags: u32 = 0;
        if self.general {
            flags |= TYPE_GENERAL_BIT;
        }
        proof {
            lemma_or_zero(TYPE_GENERAL_BIT);
            lemma_or_zero(flags);
        }
        if self.validation {
            flags |= TYPE_VALIDATION_BIT;
        }
        proof {
            lemma_or_zero(flags);
        }
        if self.performance {
            flags |= TYPE_PERFORMANCE_BIT;
        }
        proof {
            lemma_type_bits(self.general, self.validation, self.performance);
        }
        flags
    }

    /// Decodes a native bit mask: a type is selected exactly when its bit is
    /// set. Bits that belong to no type are ignored.
    pub fn decode(bits: u32) -> (t: MessageType)
        ensures
            t == MessageType::of_bits(bits),
            t.bits() == bits & TYPE_KNOWN_BITS,
    {
        proof {
            lemma_type_mask(bits);
        }
        MessageType {
            general: (bits & TYPE_GENERAL_BIT) != 0,
            validation: (bits & TYPE_VALIDATION_BIT) != 0,
            performance: (bits & TYPE_PERFORMANCE_BIT) != 0,
        }
    }
}

/// Decoding an encoded severity selection gives the selection back.
pub proof fn lemma_severity_round_trip(s: MessageSeverity)
    ensures
        MessageSeverity::of_bits(s.bits()) == s,
{
    lemma_severity_bits(s.error, s.warning, s.information, s.verbose);
}

/// Decoding an encoded type selection gives the selection back.
pub proof fn lemma_type_round_trip(t: MessageType)
    ensures
        MessageType::of_bits(t.bits()) == t,
{
    lemma_type_bits(t.general, t.validation, t.performance);
}

/// An encoded severity selection is zero exactly when nothing is selected,
/// and it never carries a bit that belongs to no severity.
pub proof fn lemma_severity_encoding_range(s: MessageSeverity)
    ensures
        s.bits() & !SEVERITY_KNOWN_BITS == 0,
        s.bits() == 0 <==> !s.error && !s.warning && !s.information && !s.verbose,
{
    lemma_severity_bits(s.error, s.warning, s.information, s.verbose);
    lemma_or_zero(0);
    lemma_zero_and(SEVERITY_ERROR_BIT);
    lemma_zero_and(SEVERITY_WARNING_BIT);
    lemma_zero_and(SEVERITY_INFO_BIT);
    lemma_zero_and(SEVERITY_VERBOSE_BIT);
}

/// An encoded type selection is zero exactly when nothing is selected, and it
/// never carries a bit that belongs to no type.
pub proof fn lemma_type_encoding_range(t: MessageType)
    ensures
        t.bits() & !TYPE_KNOWN_BITS == 0,
        t.bits() == 0 <==> !t.general && !t.validation && !t.performance,
{
    lemma_type_bits(t.general, t.validation, t.performance);
    lemma_or_zero(0);
    lemma_zero_and(TYPE_GENERAL_BIT);
    lemma_zero_and(TYPE_VALIDATION_BIT);
    lemma_zero_and(TYPE_PERFORMANCE_BIT);
}

/// Two severity selections with the same encoding are the same selection.
pub proof fn lemma_severity_encoding_is_injective(a: MessageSeverity, b: MessageSeverity)
    requires
        a.bits() == b.bits(),
    ensures
        a == b,
{
    lemma_severity_round_trip(a);
    lemma_severity_round_trip(b);
}

/// Two type selections with the same encoding are the same selection.
pub proof fn lemma_type_encoding_is_injective(a: MessageType, b: MessageType)
    requires
        a.bits() == b.bits(),
    ensures
        a == b,
{
    lemma_type_round_trip(a);
    lemma_type_round_trip(b);
}

/// A mask decodes to the empty severity selection exactly when none of the
/// known severity bits is set in it. The zero mask is one such mask.
pub proof fn lemma_severity_decodes_to_nothing(bits: u32)
    ensures
        bits & SEVERITY_KNOWN_BITS == 0 <==> MessageSeverity::of_bits(bits) == (MessageSeverity {
            error: false,
            warning: false,
            information: false,
            verbose: false,
        }),
        MessageSeverity::of_bits(0) == (MessageSeverity {
            error: false,
            warning: false,
            information: false,
            verbose: false,
        }),
{
    lemma_severity_mask(bits);
    lemma_severity_encoding_range(MessageSeverity::of_bits(bits));
    lemma_zero_and(SEVERITY_ERROR_BIT);
    lemma_zero_and(SEVERITY_WARNING_BIT);
    lemma_zero_and(SEVERITY_INFO_BIT);
    lemma_zero_and(SEVERITY_VERBOSE_BIT);
}

/// A mask decodes to the empty type selection exactly when none of the known
/// type bits is set in it. The zero mask is one such mask.
pub proof fn lemma_type_decodes_to_nothing(bits: u32)
    ensures
        bits & TYPE_KNOWN_BITS == 0 <==> MessageType::of_bits(bits) == (MessageType {
            general: false,
            validation: false,
            performance: false,
        }),
        MessageType::of_bits(0) == (MessageType {
            general: false,
            validation: false,
            performance: false,
        }),
{
    lemma_type_mask(bits);
    lemma_type_encoding_range(MessageType::of_bits(bits));
    lemma_zero_and(TYPE_GENERAL_BIT);
    lemma_zero_and(TYPE_VALIDATION_BIT);
    lemma_zero_and(TYPE_PERFORMANCE_BIT);
}

/// Decoding looks at the known severity bits only: two masks that agree on
/// them decode alike, and encoding what was decoded keeps exactly those bits.
pub proof fn lemma_severity_decode_ignores_unknown(bits: u32)
    ensures
        MessageSeverity::of_bits(bits) == MessageSeverity::of_bits(bits & SEVERITY_KNOWN_BITS),
        MessageSeverity::of_bits(bits).bits() == bits & SEVERITY_KNOWN_BITS,
{
    lemma_severity_mask(bits);
}

/// Decoding looks at the known type bits only: two masks that agree on them
/// decode alike, and encoding what was decoded keeps exactly those bits.
pub proof fn lemma_type_decode_ignores_unknown(bits: u32)
    ensures
        MessageType::of_bits(bits) == MessageType::of_bits(bits & TYPE_KNOWN_BITS),
        MessageType::of_bits(bits).bits() == bits & TYPE_KNOWN_BITS,
{
    lemma_type_mask(bits);
}

} // verus!
