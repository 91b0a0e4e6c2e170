//! Error type for all UEFI functions
//!
//! This maps EFI_STATUS warnings and errors to [`Err`], and success to [`Ok`]
use vstd::prelude::*;

verus! {

/// High bit of an `EFI_STATUS`, set on errors
pub const ERROR_BIT: usize = 1usize << (usize::BITS - 1);

/// Next highest bit of an `EFI_STATUS`, set on OEM codes
pub const NEXT_BIT: usize = 1usize << (usize::BITS - 2);

/// A ABI transparent wrapper around EFI_STATUS
#[derive(Debug, Clone, Copy, PartialEq, Eq, Structural)]
pub struct EfiStatus(pub usize);

/// The name `nuefi` uses for [`EfiStatus`]
pub type Status = EfiStatus;

/// Whether `v` has the error bit set
pub open spec fn has_error_bit(v: usize) -> bool {
    v & ERROR_BIT != 0
}

/// Whether `v` has the OEM bit set
pub open spec fn has_next_bit(v: usize) -> bool {
    v & NEXT_BIT != 0
}

impl EfiStatus {
    /// Whether this is `SUCCESS`
    pub fn is_success(self) -> (r: bool)
        ensures
            r == (self.0 == 0),
    {
        self.0 == 0
    }

    /// Whether this is a warning: neither success nor an error
    pub fn is_warning(self) -> (r: bool)
        ensures
            r == (self.0 != 0 && !has_error_bit(self.0)),
    {
        self.0 != 0 && self.0 & ERROR_BIT == 0
    }

    /// Whether this is an error
    pub fn is_error(self) -> (r: bool)
        ensures
            r == has_error_bit(self.0),
    {
        self.0 & ERROR_BIT != 0
    }

    /// Whether this is an error defined by the UEFI specification
    pub fn is_efi(self) -> (r: bool)
        ensures
            r == (has_error_bit(self.0) && !has_next_bit(self.0)),
    {
        self.0 & ERROR_BIT != 0 && self.0 & NEXT_BIT == 0
    }

    /// Whether this is an OEM defined status
    pub fn is_oem(self) -> (r: bool)
        ensures
            r == has_next_bit(self.0),
    {
        self.0 & NEXT_BIT != 0
    }
}

impl EfiStatus {
    /// The `SUCCESS` status
    pub open spec fn spec_success() -> EfiStatus {
        EfiStatus(0)
    }

    /// The `SUCCESS` status
    #[verifier::when_used_as_spec(spec_success)]
    pub fn success() -> (r: EfiStatus)
        ensures
            r == Self::spec_success(),
    {
        EfiStatus(0)
    }
    /// The `WARN_UNKNOWN_GLYPH` status
    pub open spec fn spec_warn_unknown_glyph() -> EfiStatus {
        EfiStatus(1)
    }

    /// The `WARN_UNKNOWN_GLYPH` status
    #[verifier::when_used_as_spec(spec_warn_unknown_glyph)]
    pub fn warn_unknown_glyph() -> (r: EfiStatus)
        ensures
            r == Self::spec_warn_unknown_glyph(),
    {
        EfiStatus(1)
    }
    /// The `WARN_DELETE_FAILURE` status
    pub open spec fn spec_warn_delete_failure() -> EfiStatus {
        EfiStatus(2)
    }

    /// The `WARN_DELETE_FAILURE` status
    #[verifier::when_used_as_spec(spec_warn_delete_failure)]
    pub fn warn_delete_failure() -> (r: EfiStatus)
        ensures
            r == Self::spec_warn_delete_failure(),
    {
        EfiStatus(2)
    }
    /// The `WARN_WRITE_FAILURE` status
    pub open spec fn spec_warn_write_failure() -> EfiStatus {
        EfiStatus(3)
    }

    /// The `WARN_WRITE_FAILURE` status
    #[verifier::when_used_as_spec(spec_warn_write_failure)]
    pub fn warn_write_failure() -> (r: EfiStatus)
        ensures
            r == Self::spec_warn_write_failure(),
    {
        EfiStatus(3)
    }
    /// The `WARN_BUFFER_TOO_SMALL` status
    pub open spec fn spec_warn_buffer_too_small() -> EfiStatus {
        EfiStatus(4)
    }

    /// The `WARN_BUFFER_TOO_SMALL` status
    #[verifier::when_used_as_spec(spec_warn_buffer_too_small)]
    pub fn warn_buffer_too_small() -> (r: EfiStatus)
        ensures
            r == Self::spec_warn_buffer_too_small(),
    {
        EfiStatus(4)
    }
    /// The `WARN_STALE_DATA` status
    pub open spec fn spec_warn_stale_data() -> EfiStatus {
        EfiStatus(5)
    }

    /// The `WARN_STALE_DATA` status
    #[verifier::when_used_as_spec(spec_warn_stale_data)]
    pub fn warn_stale_data() -> (r: EfiStatus)
        ensures
            r == Self::spec_warn_stale_data(),
    {
        EfiStatus(5)
    }
    /// The `WARN_FILE_SYSTEM` status
    pub open spec fn spec_warn_file_system() -> EfiStatus {
        EfiStatus(6)
    }

    /// The `WARN_FILE_SYSTEM` status
    #[verifier::when_used_as_spec(spec_warn_file_system)]
    pub fn warn_file_system() -> (r: EfiStatus)
        ensures
            r == Self::spec_warn_file_system(),
    {
        EfiStatus(6)
    }
    /// The `WARN_RESET_REQUIRED` status
    pub open spec fn spec_warn_reset_required() -> EfiStatus {
        EfiStatus(7)
    }

    /// The `WARN_RESET_REQUIRED` status
    #[verifier::when_used_as_spec(spec_warn_reset_required)]
    pub fn warn_reset_required() -> (r: EfiStatus)
        ensures
            r == Self::spec_warn_reset_required(),
    {
        EfiStatus(7)
    }
    /// The `LOAD_ERROR` status
    pub open spec fn spec_load_error() -> EfiStatus {
        EfiStatus(ERROR_BIT | 1)
    }

    /// The `LOAD_ERROR` status
    #[verifier::when_used_as_spec(spec_load_error)]
    pub fn load_error() -> (r: EfiStatus)
        ensures
            r == Self::spec_load_error(),
            r.0 != 0,
            has_error_bit(r.0),
            !has_next_bit(r.0),
    {
        proof {
            lemma_named_status_kinds(1);
        }
        EfiStatus(ERROR_BIT | 1)
    }
    /// The `INVALID_PARAMETER` status
    pub open spec fn spec_invalid_parameter() -> EfiStatus {
        EfiStatus(ERROR_BIT | 2)
    }

    /// The `INVALID_PARAMETER` status
    #[verifier::when_used_as_spec(spec_invalid_parameter)]
    pub fn invalid_parameter() -> (r: EfiStatus)
        ensures
            r == Self::spec_invalid_parameter(),
            r.0 != 0,
            has_error_bit(r.0),
            !has_next_bit(r.0),
    {
        proof {
            lemma_named_status_kinds(2);
        }
        EfiStatus(ERROR_BIT | 2)
    }
    /// The `UNSUPPORTED` status
    pub open spec fn spec_unsupported() -> EfiStatus {
        EfiStatus(ERROR_BIT | 3)
    }

    /// The `UNSUPPORTED` status
    #[verifier::when_used_as_spec(spec_unsupported)]
    pub fn unsupported() -> (r: EfiStatus)
        ensures
            r == Self::spec_unsupported(),
            r.0 != 0,
            has_error_bit(r.0),
            !has_next_bit(r.0),
    {
        proof {
            lemma_named_status_kinds(3);
        }
        EfiStatus(ERROR_BIT | 3)
    }
    /// The `BAD_BUFFER_SIZE` status
    pub open spec fn spec_bad_buffer_size() -> EfiStatus {
        EfiStatus(ERROR_BIT | 4)
    }

    /// The `BAD_BUFFER_SIZE` status
    #[verifier::when_used_as_spec(spec_bad_buffer_size)]
    pub fn bad_buffer_size() -> (r: EfiStatus)
        ensures
            r == Self::spec_bad_buffer_size(),
            r.0 != 0,
            has_error_bit(r.0),
            !has_next_bit(r.0),
    {
        proof {
            lemma_named_status_kinds(4);
        }
        EfiStatus(ERROR_BIT | 4)
    }
    /// The `BUFFER_TOO_SMALL` status
    pub open spec fn spec_buffer_too_small() -> EfiStatus {
        EfiStatus(ERROR_BIT | 5)
    }

    /// The `BUFFER_TOO_SMALL` status
    #[verifier::when_used_as_spec(spec_buffer_too_small)]
    pub fn buffer_too_small() -> (r: EfiStatus)
        ensures
            r == Self::spec_buffer_too_small(),
            r.0 != 0,
            has_error_bit(r.0),
            !has_next_bit(r.0),
    {
        proof {
            lemma_named_status_kinds(5);
        }
        EfiStatus(ERROR_BIT | 5)
    }
    /// The `NOT_READY` status
    pub open spec fn spec_not_ready() -> EfiStatus {
        EfiStatus(ERROR_BIT | 6)
    }

    /// The `NOT_READY` status
    #[verifier::when_used_as_spec(spec_not_ready)]
    pub fn not_ready() -> (r: EfiStatus)
        ensures
            r == Self::spec_not_ready(),
            r.0 != 0,
            has_error_bit(r.0),
            !has_next_bit(r.0),
    {
        proof {
            lemma_named_status_kinds(6);
        }
        EfiStatus(ERROR_BIT | 6)
    }
    /// The `DEVICE_ERROR` status
    pub open spec fn spec_device_error() -> EfiStatus {
        EfiStatus(ERROR_BIT | 7)
    }

    /// The `DEVICE_ERROR` status
    #[verifier::when_used_as_spec(spec_device_error)]
    pub fn device_error() -> (r: EfiStatus)
        ensures
            r == Self::spec_device_error(),
            r.0 != 0,
            has_error_bit(r.0),
            !has_next_bit(r.0),
    {
        proof {
            lemma_named_status_kinds(7);
        }
        EfiStatus(ERROR_BIT | 7)
    }
    /// The `WRITE_PROTECTED` status
    pub open spec fn spec_write_protected() -> EfiStatus {
        EfiStatus(ERROR_BIT | 8)
    }

    /// The `WRITE_PROTECTED` status
    #[verifier::when_used_as_spec(spec_write_protected)]
    pub fn write_protected() -> (r: EfiStatus)
        ensures
            r == Self::spec_write_protected(),
            r.0 != 0,
            has_error_bit(r.0),
            !has_next_bit(r.0),
    {
        proof {
            lemma_named_status_kinds(8);
        }
        EfiStatus(ERROR_BIT | 8)
    }
    /// The `OUT_OF_RESOURCES` status
    pub open spec fn spec_out_of_resources() -> EfiStatus {
        EfiStatus(ERROR_BIT | 9)
    }

    /// The `OUT_OF_RESOURCES` status
    #[verifier::when_used_as_spec(spec_out_of_resources)]
    pub fn out_of_resources() -> (r: EfiStatus)
        ensures
            r == Self::spec_out_of_resources(),
            r.0 != 0,
            has_error_bit(r.0),
            !has_next_bit(r.0),
    {
        proof {
            lemma_named_status_kinds(9);
        }
        EfiStatus(ERROR_BIT | 9)
    }
    /// The `VOLUME_CORRUPTED` status
    pub open spec fn spec_volume_corrupted() -> EfiStatus {
        EfiStatus(ERROR_BIT | 10)
    }

    /// The `VOLUME_CORRUPTED` status
    #[verifier::when_used_as_spec(spec_volume_corrupted)]
    pub fn volume_corrupted() -> (r: EfiStatus)
        ensures
            r == Self::spec_volume_corrupted(),
            r.0 != 0,
            has_error_bit(r.0),
            !has_next_bit(r.0),
    {
        proof {
            lemma_named_status_kinds(10);
        }
        EfiStatus(ERROR_BIT | 10)
    }
    /// The `VOLUME_FULL` status
    pub open spec fn spec_volume_full() -> EfiStatus {
        EfiStatus(ERROR_BIT | 11)
    }

    /// The `VOLUME_FULL` status
    #[verifier::when_used_as_spec(spec_volume_full)]
    pub fn volume_full() -> (r: EfiStatus)
        ensures
            r == Self::spec_volume_full(),
            r.0 != 0,
            has_error_bit(r.0),
            !has_next_bit(r.0),
    {
        proof {
            lemma_named_status_kinds(11);
        }
        EfiStatus(ERROR_BIT | 11)
    }
    /// The `NO_MEDIA` status
    pub open spec fn spec_no_media() -> EfiStatus {
        EfiStatus(ERROR_BIT | 12)
    }

    /// The `NO_MEDIA` status
    #[verifier::when_used_as_spec(spec_no_media)]
    pub fn no_media() -> (r: EfiStatus)
        ensures
            r == Self::spec_no_media(),
            r.0 != 0,
            has_error_bit(r.0),
            !has_next_bit(r.0),
    {
        proof {
            lemma_named_status_kinds(12);
        }
        EfiStatus(ERROR_BIT | 12)
    }
    /// The `MEDIA_CHANGED` status
    pub open spec fn spec_media_changed() -> EfiStatus {
        EfiStatus(ERROR_BIT | 13)
    }

    /// The `MEDIA_CHANGED` status
    #[verifier::when_used_as_spec(spec_media_changed)]
    pub fn media_changed() -> (r: EfiStatus)
        ensures
            r == Self::spec_media_changed(),
            r.0 != 0,
            has_error_bit(r.0),
            !has_next_bit(r.0),
    {
        proof {
            lemma_named_status_kinds(13);
        }
        EfiStatus(ERROR_BIT | 13)
    }
    /// The `NOT_FOUND` status
    pub open spec fn spec_not_found() -> EfiStatus {
        EfiStatus(ERROR_BIT | 14)
    }

    /// The `NOT_FOUND` status
    #[verifier::when_used_as_spec(spec_not_found)]
    pub fn not_found() -> (r: EfiStatus)
        ensures
            r == Self::spec_not_found(),
            r.0 != 0,
            has_error_bit(r.0),
            !has_next_bit(r.0),
    {
        proof {
            lemma_named_status_kinds(14);
        }
        EfiStatus(ERROR_BIT | 14)
    }
    /// The `ACCESS_DENIED` status
    pub open spec fn spec_access_denied() -> EfiStatus {
        EfiStatus(ERROR_BIT | 15)
    }

    /// The `ACCESS_DENIED` status
    #[verifier::when_used_as_spec(spec_access_denied)]
    pub fn access_denied() -> (r: EfiStatus)
        ensures
            r == Self::spec_access_denied(),
            r.0 != 0,
            has_error_bit(r.0),
            !has_next_bit(r.0),
    {
        proof {
            lemma_named_status_kinds(15);
        }
        EfiStatus(ERROR_BIT | 15)
    }
    /// The `NO_RESPONSE` status
    pub open spec fn spec_no_response() -> EfiStatus {
        EfiStatus(ERROR_BIT | 16)
    }

    /// The `NO_RESPONSE` status
    #[verifier::when_used_as_spec(spec_no_response)]
    pub fn no_response() -> (r: EfiStatus)
        ensures
            r == Self::spec_no_response(),
            r.0 != 0,
            has_error_bit(r.0),
            !has_next_bit(r.0),
    {
        proof {
            lemma_named_status_kinds(16);
        }
        EfiStatus(ERROR_BIT | 16)
    }
    /// The `NO_MAPPING` status
    pub open spec fn spec_no_mapping() -> EfiStatus {
        EfiStatus(ERROR_BIT | 17)
    }

    /// The `NO_MAPPING` status
    #[verifier::when_used_as_spec(spec_no_mapping)]
    pub fn no_mapping() -> (r: EfiStatus)
        ensures
            r == Self::spec_no_mapping(),
            r.0 != 0,
            has_error_bit(r.0),
            !has_next_bit(r.0),
    {
        proof {
            lemma_named_status_kinds(17);
        }
        EfiStatus(ERROR_BIT | 17)
    }
    /// The `TIMEOUT` status
    pub open spec fn spec_timeout() -> EfiStatus {
        EfiStatus(ERROR_BIT | 18)
    }

    /// The `TIMEOUT` status
    #[verifier::when_used_as_spec(spec_timeout)]
    pub fn timeout() -> (r: EfiStatus)
        ensures
            r == Self::spec_timeout(),
            r.0 != 0,
            has_error_bit(r.0),
            !has_next_bit(r.0),
    {
        proof {
            lemma_named_status_kinds(18);
        }
        EfiStatus(ERROR_BIT | 18)
    }
    /// The `NOT_STARTED` status
    pub open spec fn spec_not_started() -> EfiStatus {
        EfiStatus(ERROR_BIT | 19)
    }

    /// The `NOT_STARTED` status
    #[verifier::when_used_as_spec(spec_not_started)]
    pub fn not_started() -> (r: EfiStatus)
        ensures
            r == Self::spec_not_started(),
            r.0 != 0,
            has_error_bit(r.0),
            !has_next_bit(r.0),
    {
        proof {
            lemma_named_status_kinds(19);
        }
        EfiStatus(ERROR_BIT | 19)
    }
    /// The `ALREADY_STARTED` status
    pub open spec fn spec_already_started() -> EfiStatus {
        EfiStatus(ERROR_BIT | 20)
    }

    /// The `ALREADY_STARTED` status
    #[verifier::when_used_as_spec(spec_already_started)]
    pub fn already_started() -> (r: EfiStatus)
        ensures
            r == Self::spec_already_started(),
            r.0 != 0,
            has_error_bit(r.0),
            !has_next_bit(r.0),
    {
        proof {
            lemma_named_status_kinds(20);
        }
        EfiStatus(ERROR_BIT | 20)
    }
    /// The `ABORTED` status
    pub open spec fn spec_aborted() -> EfiStatus {
        EfiStatus(ERROR_BIT | 21)
    }

    /// The `ABORTED` status
    #[verifier::when_used_as_spec(spec_aborted)]
    pub fn aborted() -> (r: EfiStatus)
        ensures
            r == Self::spec_aborted(),
            r.0 != 0,
            has_error_bit(r.0),
            !has_next_bit(r.0),
    {
        proof {
            lemma_named_status_kinds(21);
        }
        EfiStatus(ERROR_BIT | 21)
    }
    /// The `ICMP_ERROR` status
    pub open spec fn spec_icmp_error() -> EfiStatus {
        EfiStatus(ERROR_BIT | 22)
    }

    /// The `ICMP_ERROR` status
    #[verifier::when_used_as_spec(spec_icmp_error)]
    pub fn icmp_error() -> (r: EfiStatus)
        ensures
            r == Self::spec_icmp_error(),
            r.0 != 0,
            has_error_bit(r.0),
            !has_next_bit(r.0),
    {
        proof {
            lemma_named_status_kinds(22);
        }
        EfiStatus(ERROR_BIT | 22)
    }
    /// The `TCP_ERROR` status
    pub open spec fn spec_tcp_error() -> EfiStatus {
        EfiStatus(ERROR_BIT | 23)
    }

    /// The `TCP_ERROR` status
    #[verifier::when_used_as_spec(spec_tcp_error)]
    pub fn tcp_error() -> (r: EfiStatus)
        ensures
            r == Self::spec_tcp_error(),
            r.0 != 0,
            has_error_bit(r.0),
            !has_next_bit(r.0),
    {
        proof {
            lemma_named_status_kinds(23);
        }
        EfiStatus(ERROR_BIT | 23)
    }
    /// The `PROTOCOL_ERROR` status
    pub open spec fn spec_protocol_error() -> EfiStatus {
        EfiStatus(ERROR_BIT | 24)
    }

    /// The `PROTOCOL_ERROR` status
    #[verifier::when_used_as_spec(spec_protocol_error)]
    pub fn protocol_error() -> (r: EfiStatus)
        ensures
            r == Self::spec_protocol_error(),
            r.0 != 0,
            has_error_bit(r.0),
            !has_next_bit(r.0),
    {
        proof {
            lemma_named_status_kinds(24);
        }
        EfiStatus(ERROR_BIT | 24)
    }
    /// The `INCOMPATIBLE_VERSION` status
    pub open spec fn spec_incompatible_version() -> EfiStatus {
        EfiStatus(ERROR_BIT | 25)
    }

    /// The `INCOMPATIBLE_VERSION` status
    #[verifier::when_used_as_spec(spec_incompatible_version)]
    pub fn incompatible_version() -> (r: EfiStatus)
        ensures
            r == Self::spec_incompatible_version(),
            r.0 != 0,
            has_error_bit(r.0),
            !has_next_bit(r.0),
    {
        proof {
            lemma_named_status_kinds(25);
        }
        EfiStatus(ERROR_BIT | 25)
    }
    /// The `SECURITY_VIOLATION` status
    pub open spec fn spec_security_violation() -> EfiStatus {
        EfiStatus(ERROR_BIT | 26)
    }

    /// The `SECURITY_VIOLATION` status
    #[verifier::when_used_as_spec(spec_security_violation)]
    pub fn security_violation() -> (r: EfiStatus)
        ensures
            r == Self::spec_security_violation(),
            r.0 != 0,
            has_error_bit(r.0),
            !has_next_bit(r.0),
    {
        proof {
            lemma_named_status_kinds(26);
        }
        EfiStatus(ERROR_BIT | 26)
    }
    /// The `CRC_ERROR` status
    pub open spec fn spec_crc_error() -> EfiStatus {
        EfiStatus(ERROR_BIT | 27)
    }

    /// The `CRC_ERROR` status
    #[verifier::when_used_as_spec(spec_crc_error)]
    pub fn crc_error() -> (r: EfiStatus)
        ensures
            r == Self::spec_crc_error(),
            r.0 != 0,
            has_error_bit(r.0),
            !has_next_bit(r.0),
    {
        proof {
            lemma_named_status_kinds(27);
        }
        EfiStatus(ERROR_BIT | 27)
    }
    /// The `END_OF_MEDIA` status
    pub open spec fn spec_end_of_media() -> EfiStatus {
        EfiStatus(ERROR_BIT | 28)
    }

    /// The `END_OF_MEDIA` status
    #[verifier::when_used_as_spec(spec_end_of_media)]
    pub fn end_of_media() -> (r: EfiStatus)
        ensures
            r == Self::spec_end_of_media(),
            r.0 != 0,
            has_error_bit(r.0),
            !has_next_bit(r.0),
    {
        proof {
            lemma_named_status_kinds(28);
        }
        EfiStatus(ERROR_BIT | 28)
    }
    /// The `END_OF_FILE` status
    pub open spec fn spec_end_of_file() -> EfiStatus {
        EfiStatus(ERROR_BIT | 31)
    }

    /// The `END_OF_FILE` status
    #[verifier::when_used_as_spec(spec_end_of_file)]
    pub fn end_of_file() -> (r: EfiStatus)
        ensures
            r == Self::spec_end_of_file(),
            r.0 != 0,
            has_error_bit(r.0),
            !has_next_bit(r.0),
    {
        proof {
            lemma_named_status_kinds(31);
        }
        EfiStatus(ERROR_BIT | 31)
    }
    /// The `INVALID_LANGUAGE` status
    pub open spec fn spec_invalid_language() -> EfiStatus {
        EfiStatus(ERROR_BIT | 32)
    }

    /// The `INVALID_LANGUAGE` status
    #[verifier::when_used_as_spec(spec_invalid_language)]
    pub fn invalid_language() -> (r: EfiStatus)
        ensures
            r == Self::spec_invalid_language(),
            r.0 != 0,
            has_error_bit(r.0),
            !has_next_bit(r.0),
    {
        proof {
            lemma_named_status_kinds(32);
        }
        EfiStatus(ERROR_BIT | 32)
    }
    /// The `COMPROMISED_DATA` status
    pub open spec fn spec_compromised_data() -> EfiStatus {
        EfiStatus(ERROR_BIT | 33)
    }

    /// The `COMPROMISED_DATA` status
    #[verifier::when_used_as_spec(spec_compromised_data)]
    pub fn compromised_data() -> (r: EfiStatus)
        ensures
            r == Self::spec_compromised_data(),
            r.0 != 0,
            has_error_bit(r.0),
            !has_next_bit(r.0),
    {
        proof {
            lemma_named_status_kinds(33);
        }
        EfiStatus(ERROR_BIT | 33)
    }
    /// The `IP_ADDRESS_CONFLICT` status
    pub open spec fn spec_ip_address_conflict() -> EfiStatus {
        EfiStatus(ERROR_BIT | 34)
    }

    /// The `IP_ADDRESS_CONFLICT` status
    #[verifier::when_used_as_spec(spec_ip_address_conflict)]
    pub fn ip_address_conflict() -> (r: EfiStatus)
        ensures
            r == Self::spec_ip_address_conflict(),
            r.0 != 0,
            has_error_bit(r.0),
            !has_next_bit(r.0),
    {
        proof {
            lemma_named_status_kinds(34);
        }
        EfiStatus(ERROR_BIT | 34)
    }
    /// The `HTTP_ERROR` status
    pub open spec fn spec_http_error() -> EfiStatus {
        EfiStatus(ERROR_BIT | 35)
    }

    /// The `HTTP_ERROR` status
    #[verifier::when_used_as_spec(spec_http_error)]
    pub fn http_error() -> (r: EfiStatus)
        ensures
            r == Self::spec_http_error(),
            r.0 != 0,
            has_error_bit(r.0),
            !has_next_bit(r.0),
    {
        proof {
            lemma_named_status_kinds(35);
        }
        EfiStatus(ERROR_BIT | 35)
    }
}

/// The text that describes the status with code `v`, for the codes this
/// library knows
pub open spec fn status_text(v: usize) -> Option<Seq<char>> {
    if v == 0 {
        Some("success"@)
    } else if v == 1 {
        Some("unknown glyph"@)
    } else if v == 2 {
        Some("delete failure"@)
    } else if v == 3 {
        Some("write failure"@)
    } else if v == 4 {
        Some("buffer too small warning"@)
    } else if v == 5 {
        Some("stale data"@)
    } else if v == 6 {
        Some("filesystem"@)
    } else if v == 7 {
        Some("reset required"@)
    } else if v == (ERROR_BIT | 1) {
        Some("load error"@)
    } else if v == (ERROR_BIT | 2) {
        Some("invalid parameter"@)
    } else if v == (ERROR_BIT | 3) {
        Some("unsupported"@)
    } else if v == (ERROR_BIT | 4) {
        Some("bad buffer"@)
    } else if v == (ERROR_BIT | 5) {
        Some("buffer too small error"@)
    } else if v == (ERROR_BIT | 6) {
        Some("not ready"@)
    } else if v == (ERROR_BIT | 7) {
        Some("device error"@)
    } else if v == (ERROR_BIT | 8) {
        Some("write protected"@)
    } else if v == (ERROR_BIT | 9) {
        Some("out of resources"@)
    } else if v == (ERROR_BIT | 10) {
        Some("volume corrupted"@)
    } else if v == (ERROR_BIT | 11) {
        Some("volume full"@)
    } else if v == (ERROR_BIT | 12) {
        Some("no media"@)
    } else if v == (ERROR_BIT | 13) {
        Some("media changed"@)
    } else if v == (ERROR_BIT | 14) {
        Some("not found"@)
    } else if v == (ERROR_BIT | 15) {
        Some("access denied"@)
    } else if v == (ERROR_BIT | 16) {
        Some("no response"@)
    } else if v == (ERROR_BIT | 17) {
        Some("no mapping"@)
    } else if v == (ERROR_BIT | 18) {
        Some("time out"@)
    } else if v == (ERROR_BIT | 19) {
        Some("not started"@)
    } else if v == (ERROR_BIT | 20) {
        Some("already started"@)
    } else if v == (ERROR_BIT | 21) {
        Some("aborted"@)
    } else if v == (ERROR_BIT | 22) {
        Some("icmp error"@)
    } else if v == (ERROR_BIT | 23) {
        Some("tcp error"@)
    } else if v == (ERROR_BIT | 24) {
        Some("network protocol error"@)
    } else if v == (ERROR_BIT | 25) {
        Some("incompatible version"@)
    } else if v == (ERROR_BIT | 26) {
        Some("security violation"@)
    } else if v == (ERROR_BIT | 27) {
        Some("crc error"@)
    } else if v == (ERROR_BIT | 28) {
        Some("end of media"@)
    } else if v == (ERROR_BIT | 31) {
        Some("end of file"@)
    } else if v == (ERROR_BIT | 32) {
        Some("invalid language"@)
    } else if v == (ERROR_BIT | 33) {
        Some("compromised data"@)
    } else if v == (ERROR_BIT | 34) {
        Some("ip address conflict"@)
    } else if v == (ERROR_BIT | 35) {
        Some("http error"@)
    } else {
        None
    }
}

impl EfiStatus {
    /// A short text describing this status, as it is displayed, where this
    /// library defines the status
    pub fn text(self) -> (r: Option<&'static str>)
        ensures
            match r {
                Some(s) => status_text(self.0) == Some(s@),
                None => status_text(self.0) is None,
            },
    {
        let v: usize = self.0;
        if v == 0 {
            Some("success")
        } else if v == 1 {
            Some("unknown glyph")
        } else if v == 2 {
            Some("delete failure")
        } else if v == 3 {
            Some("write failure")
        } else if v == 4 {
            Some("buffer too small warning")
        } else if v == 5 {
            Some("stale data")
        } else if v == 6 {
            Some("filesystem")
        } else if v == 7 {
            Some("reset required")
        } else if v == (ERROR_BIT | 1) {
            Some("load error")
        } else if v == (ERROR_BIT | 2) {
            Some("invalid parameter")
        } else if v == (ERROR_BIT | 3) {
            Some("unsupported")
        } else if v == (ERROR_BIT | 4) {
            Some("bad buffer")
        } else if v == (ERROR_BIT | 5) {
            Some("buffer too small error")
        } else if v == (ERROR_BIT | 6) {
            Some("not ready")
        } else if v == (ERROR_BIT | 7) {
            Some("device error")
        } else if v == (ERROR_BIT | 8) {
            Some("write protected")
        } else if v == (ERROR_BIT | 9) {
            Some("out of resources")
        } else if v == (ERROR_BIT | 10) {
            Some("volume corrupted")
        } else if v == (ERROR_BIT | 11) {
            Some("volume full")
        } else if v == (ERROR_BIT | 12) {
            Some("no media")
        } else if v == (ERROR_BIT | 13) {
            Some("media changed")
        } else if v == (ERROR_BIT | 14) {
            Some("not found")
        } else if v == (ERROR_BIT | 15) {
            Some("access denied")
        } else if v == (ERROR_BIT | 16) {
            Some("no response")
        } else if v == (ERROR_BIT | 17) {
            Some("no mapping")
        } else if v == (ERROR_BIT | 18) {
            Some("time out")
        } else if v == (ERROR_BIT | 19) {
            Some("not started")
        } else if v == (ERROR_BIT | 20) {
            Some("already started")
        } else if v == (ERROR_BIT | 21) {
            Some("aborted")
        } else if v == (ERROR_BIT | 22) {
            Some("icmp error")
        } else if v == (ERROR_BIT | 23) {
            Some("tcp error")
        } else if v == (ERROR_BIT | 24) {
            Some("network protocol error")
        } else if v == (ERROR_BIT | 25) {
            Some("incompatible version")
        } else if v == (ERROR_BIT | 26) {
            Some("security violation")
        } else if v == (ERROR_BIT | 27) {
            Some("crc error")
        } else if v == (ERROR_BIT | 28) {
            Some("end of media")
        } else if v == (ERROR_BIT | 31) {
            Some("end of file")
        } else if v == (ERROR_BIT | 32) {
            Some("invalid language")
        } else if v == (ERROR_BIT | 33) {
            Some("compromised data")
        } else if v == (ERROR_BIT | 34) {
            Some("ip address conflict")
        } else if v == (ERROR_BIT | 35) {
            Some("http error")
        } else {
            None
        }
    }

    /// A short text describing this status, as it is displayed
    ///
    /// Only the statuses defined by this library have a description.
    pub fn description(self) -> (r: &'static str)
        requires
            status_text(self.0) is Some,
        ensures
            r@ == status_text(self.0)->0,
    {
        self.text().unwrap()
    }
}

/// Represents a UEFI `EFI_STATUS` that is not `SUCCESS`
#[derive(Debug, Clone, Copy, PartialEq, Eq, Structural)]
pub struct UefiError {
    inner: EfiStatus,
}

/// The `Result` of UEFI functions
pub type Result<T> = core::result::Result<T, UefiError>;

impl UefiError {
    /// The status this error carries
    pub closed spec fn spec_status(self) -> EfiStatus {
        self.inner
    }

    /// Create a new [`UefiError`]
    ///
    /// Only do this with an [`EfiStatus`] that is NOT `SUCCESS`
    pub fn new(inner: EfiStatus) -> (r: Self)
        requires
            inner.0 != 0,
        ensures
            r == error_of(inner),
            r.spec_status() == inner,
    {
        Self { inner }
    }

    /// The [`EfiStatus`] for this error
    #[verifier::when_used_as_spec(spec_status)]
    pub fn status(self) -> (r: EfiStatus)
        ensures
            r == self.spec_status(),
    {
        self.inner
    }
}

/// What a status means as a result: `Ok` on `SUCCESS`, the status as an
/// error otherwise
pub open spec fn status_result(s: EfiStatus) -> Result<()> {
    if s.0 == 0 {
        Ok(())
    } else {
        Err(error_of(s))
    }
}

/// The error that carries `s`
pub closed spec fn error_of(s: EfiStatus) -> UefiError {
    UefiError { inner: s }
}

/// The error built from a status carries that status
pub broadcast proof fn lemma_error_of(s: EfiStatus)
    ensures
        #[trigger] error_of(s).spec_status() == s,
{
}

/// Two errors that carry the same status are the same error
pub broadcast proof fn lemma_error_status_injective(e: UefiError, f: UefiError)
    ensures
        (#[trigger] e.spec_status() == #[trigger] f.spec_status()) == (e == f),
{
}

impl UefiError {
    /// An error carrying `inner`, whatever it is, `SUCCESS` included, for
    /// where firmware answers a status this library does not expect
    pub fn new_status(inner: EfiStatus) -> (r: Self)
        ensures
            r == error_of(inner),
    {
        Self { inner }
    }

    /// A short text describing this error's status
    pub fn description(self) -> (r: &'static str)
        requires
            status_text(self.spec_status().0) is Some,
        ensures
            r@ == status_text(self.spec_status().0)->0,
    {
        self.inner.description()
    }
}

impl EfiStatus {
    /// The error carrying this status
    pub fn into_error(self) -> (r: UefiError)
        ensures
            r == error_of(self),
    {
        UefiError::new_status(self)
    }

    /// Convert a status into a [`Result`]: `SUCCESS` is `Ok`, anything else
    /// an error with that status
    pub fn into_result(self) -> (r: Result<()>)
        ensures
            r == status_result(self),
    {
        if self.0 == 0 {
            Ok(())
        } else {
            Err(UefiError::new(self))
        }
    }
}

/// Every status is exactly one of success, warning or error
pub proof fn lemma_status_kinds(s: EfiStatus)
    ensures
        s.0 == 0 ==> !has_error_bit(s.0),
        (s.0 == 0) as int + (s.0 != 0 && !has_error_bit(s.0)) as int + has_error_bit(s.0) as int
            == 1,
        has_error_bit(s.0) == (s.0 >= ERROR_BIT),
        has_error_bit(s.0) && !has_next_bit(s.0) ==> s.0 >= ERROR_BIT,
{
    let v: usize = s.0;
    assert((v == 0 ==> v & ERROR_BIT == 0) && ((v & ERROR_BIT != 0) == (v >= ERROR_BIT)))
        by (bit_vector);
}

/// The statuses this library names are what their name says: the warnings
/// are warnings, the errors are errors defined by the specification, and
/// none of them is an OEM status
pub proof fn lemma_named_status_kinds(k: usize)
    requires
        1 <= k <= 35,
    ensures
        has_error_bit(ERROR_BIT | k),
        !has_next_bit(ERROR_BIT | k),
        (ERROR_BIT | k) != 0,
        k <= 7 ==> !has_error_bit(k) && !has_next_bit(k),
{
    assert(1 <= k <= 35 ==> {
        &&& (ERROR_BIT | k) & ERROR_BIT != 0
        &&& (ERROR_BIT | k) & NEXT_BIT == 0
        &&& (ERROR_BIT | k) != 0
        &&& (k <= 7 ==> k & ERROR_BIT == 0 && k & NEXT_BIT == 0)
    }) by (bit_vector);
}

/// Every status this library names carries the code UEFI gives it: the
/// warnings their small numbers, the errors theirs with the high bit set
pub proof fn lemma_status_codes()
    ensures
        ERROR_BIT == 1usize << (usize::BITS - 1),
        EfiStatus::spec_success().0 == 0,
        EfiStatus::spec_warn_unknown_glyph().0 == 1,
        EfiStatus::spec_warn_delete_failure().0 == 2,
        EfiStatus::spec_warn_write_failure().0 == 3,
        EfiStatus::spec_warn_buffer_too_small().0 == 4,
        EfiStatus::spec_warn_stale_data().0 == 5,
        EfiStatus::spec_warn_file_system().0 == 6,
        EfiStatus::spec_warn_reset_required().0 == 7,
        EfiStatus::spec_load_error().0 == ERROR_BIT | 1,
        EfiStatus::spec_invalid_parameter().0 == ERROR_BIT | 2,
        EfiStatus::spec_unsupported().0 == ERROR_BIT | 3,
        EfiStatus::spec_bad_buffer_size().0 == ERROR_BIT | 4,
        EfiStatus::spec_buffer_too_small().0 == ERROR_BIT | 5,
        EfiStatus::spec_not_ready().0 == ERROR_BIT | 6,
        EfiStatus::spec_device_error().0 == ERROR_BIT | 7,
        EfiStatus::spec_write_protected().0 == ERROR_BIT | 8,
        EfiStatus::spec_out_of_resources().0 == ERROR_BIT | 9,
        EfiStatus::spec_volume_corrupted().0 == ERROR_BIT | 10,
        EfiStatus::spec_volume_full().0 == ERROR_BIT | 11,
        EfiStatus::spec_no_media().0 == ERROR_BIT | 12,
        EfiStatus::spec_media_changed().0 == ERROR_BIT | 13,
        EfiStatus::spec_not_found().0 == ERROR_BIT | 14,
        EfiStatus::spec_access_denied().0 == ERROR_BIT | 15,
        EfiStatus::spec_no_response().0 == ERROR_BIT | 16,
        EfiStatus::spec_no_mapping().0 == ERROR_BIT | 17,
        EfiStatus::spec_timeout().0 == ERROR_BIT | 18,
        EfiStatus::spec_not_started().0 == ERROR_BIT | 19,
        EfiStatus::spec_already_started().0 == ERROR_BIT | 20,
        EfiStatus::spec_aborted().0 == ERROR_BIT | 21,
        EfiStatus::spec_icmp_error().0 == ERROR_BIT | 22,
        EfiStatus::spec_tcp_error().0 == ERROR_BIT | 23,
        EfiStatus::spec_protocol_error().0 == ERROR_BIT | 24,
        EfiStatus::spec_incompatible_version().0 == ERROR_BIT | 25,
        EfiStatus::spec_security_violation().0 == ERROR_BIT | 26,
        EfiStatus::spec_crc_error().0 == ERROR_BIT | 27,
        EfiStatus::spec_end_of_media().0 == ERROR_BIT | 28,
        EfiStatus::spec_end_of_file().0 == ERROR_BIT | 31,
        EfiStatus::spec_invalid_language().0 == ERROR_BIT | 32,
        EfiStatus::spec_compromised_data().0 == ERROR_BIT | 33,
        EfiStatus::spec_ip_address_conflict().0 == ERROR_BIT | 34,
        EfiStatus::spec_http_error().0 == ERROR_BIT | 35,
{
}

} // verus!
