//! What the wallet keeps about the chain: the last block it has scanned.

use vstd::prelude::*;

verus! {

/// Table that holds the wallet's own state.
pub const WALLET_INFO_TABLE: &'static str = "wallet_info";

/// Column of the height of the last scanned block.
pub const WALLET_INFO_COL_LAST_SCANNED_BLOCK_HEIGHT: &'static str = "last_scanned_block_height";

/// Column of the hash of the last scanned block.
pub const WALLET_INFO_COL_LAST_SCANNED_BLOCK_HASH: &'static str = "last_scanned_block_hash";

/// The value of one column of a row read from the wallet database.
#[derive(Clone, Debug)]
pub enum ColumnValue {
    Null,
    Integer(i64),
    /// A floating point number. Nothing here reads its value.
    Real,
    Text(String),
    Blob(Vec<u8>),
}

/// What can go wrong when the wallet database is read.
#[derive(Clone, Copy, Debug, PartialEq, Eq, Structural)]
pub enum WalletDbError {
    /// The wallet database could not be opened.
    InitializationFailed,
    /// A column does not hold the kind of value expected of it.
    ParseColumnValueError,
}

/// Whether a row records a scanned block: an integer that fits 32 bits
/// without sign, then a text.
pub open spec fn is_scanned_block_row(row: Seq<ColumnValue>) -> bool {
    &&& row[0] matches ColumnValue::Integer(height)
    &&& 0 <= height <= u32::MAX
    &&& row[1] is Text
}

/// Reads the height and hash of the last scanned block out of the row that
/// holds them. Any other shape of the two columns is a parse error.
pub fn parse_last_scanned_block(row: &Vec<ColumnValue>) -> (r: Result<(u32, String), WalletDbError>)
    requires
        row@.len() >= 2,
    ensures
        match r {
            Ok((height, hash)) => {
                &&& is_scanned_block_row(row@)
                &&& row@[0] == ColumnValue::Integer(height as i64)
                &&& row@[1] matches ColumnValue::Text(text)
                &&& text@ == hash@
            },
            Err(e) => !is_scanned_block_row(row@) && e == WalletDbError::ParseColumnValueError,
        },
{
    let height: u32 = match &row[0] {
        ColumnValue::Integer(height) => {
            if *height < 0 || *height > 4294967295i64 {
                return Err(WalletDbError::ParseColumnValueError);
            }
            *height as u32
        },
        _ => {
            return Err(WalletDbError::ParseColumnValueError);
        },
    };
    match &row[1] {
        ColumnValue::Text(hash) => Ok((height, hash.clone())),
        _ => Err(WalletDbError::ParseColumnValueError),
    }
}

} // verus!
