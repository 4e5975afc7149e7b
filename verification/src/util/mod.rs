pub mod base64_util;
pub mod db_util;
pub mod header_util;
pub mod password_util;
pub mod pattern_util;
pub mod time_util;
pub mod token_util;
