//! Paper Composer: the logic of a local-first assembler of paper material,
//! kept in project folders and mirrored to Google Drive.

pub mod text;
pub mod numeric;
pub mod search;
pub mod models;
pub mod paths;
pub mod config;
pub mod storage;
pub mod http;
pub mod json;
pub mod drive;
pub mod order;
pub mod assets;
pub mod bridge;
pub mod flows;
