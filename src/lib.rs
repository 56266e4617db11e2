//! CRUD operations over the `check_code` table (a code and its owner), their
//! outcomes, and the HTTP replies that report them.
pub mod status;
pub mod record;
pub mod table;
pub mod crud;
pub mod laws;
pub mod http;
