//! Safe, verified core of a binding to the native package-management library.
//!
//! The native session is reached only from outside this library; what stands
//! here is the logic that sits between that session and its callers: turning
//! outgoing text into nul-terminated buffers, decoding integer return codes into
//! typed results, decoding bit-flag and enumeration codes fail-closed, and the
//! list and file-list views that the session's data is handed out through.

mod cstr;
mod error;
mod filelist;
mod flags;
mod list;
mod ret;

pub use error::{error_from_code, Error, Result};
pub use ret::{check_ret, match_from_native, remove_from_native, ret_is_ok, Match};
pub use cstr::{
    buffers_view, content_of, contents_of, cstr_content, cstring_of, cstrings_of, first_nul,
    has_nul, is_first_nul, is_first_with_nul, lemma_cstring_list_round_trip,
    lemma_cstring_round_trip, nul_index, optional_or_empty, texts_bytes, to_cstring,
    to_cstring_list,
};
pub use flags::{
    bool_from_native, bool_from_native_spec, bool_to_native, bool_to_native_spec,
    install_date_from_native, lemma_bool_native_round_trip, lemma_siglevel_native_round_trip,
    origin_from_native, reason_from_native, sig_bits_valid, sig_from_native, sig_to_native,
    validation_bits_valid, PackageFrom, PackageReason, PackageValidation, SigLevel, SIG_ALL,
    VALIDATION_ALL,
};
pub use list::{AlpmList, AlpmListMut};
pub use filelist::{has_file_named, is_first_named, File, FileList};
