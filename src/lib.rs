//! Validation of International Mobile Equipment Identity numbers, and a text
//! wrapper that can only hold a valid one.

mod checksum;
mod text;
mod wrapper;

pub use checksum::{
    all_digits, digit_sum, digit_value, is_digit, is_imei, lemma_digits_valid_iff_checksum,
    lemma_non_digit_is_invalid, lemma_valid_is_deterministic, lemma_wrong_length_is_invalid,
    weighted_digit, weighted_sum, IMEI_LEN,
};
pub use text::AsText;
pub use wrapper::{valid, Error, Imei};
