//! Core logic of a package-installation pipeline: path context, store-key
//! encoding, artifact integrity checking, and the install planner.

mod app;
mod extract;
mod integrity;
mod package;
mod paths;
mod pipeline;
mod store;
mod store_key;
mod strutil;

pub use app::enable_ansi_support;
pub use app::is_flag_tok;
pub use app::rest_args;
pub use app::App;
pub use extract::has_prefix;
pub use extract::lemma_rename_injective;
pub use extract::lemma_rename_round_trip;
pub use extract::lemma_tree_round_trip;
pub use extract::recover_tree;
pub use extract::rewrite_tree;
pub use extract::recover_member;
pub use extract::rewrite_member;
pub use pipeline::plan_install;
pub use pipeline::register_verified;
pub use pipeline::verify_artifact;
pub use pipeline::lemma_corrupt_cache_forces_refetch;
pub use pipeline::lemma_reinstall_is_quiet;
pub use pipeline::InstallError;
pub use pipeline::InstallPlan;
pub use pipeline::Observation;
pub use pipeline::spec_download;
pub use pipeline::spec_extract;
pub use pipeline::spec_reusable;
pub use store::lemma_store_entry_unique;
pub use store::StoreModel;
pub use integrity::artifact_matches;
pub use integrity::matches_digest;
pub use integrity::sha1_hex_of;
pub use package::VoltPackage;
pub use paths::dep_link_path;
pub use paths::store_entry_path;
pub use paths::tarball_file_name;
pub use paths::temp_artifact_path;
pub use paths::volt_api_url;
pub use store_key::encode_char;
pub use store_key::encode_name;
pub use store_key::is_special;
pub use store_key::lemma_encode_name_injective;
pub use store_key::lemma_store_keys_collision_free;
pub use store_key::store_key;
pub use store_key::tag_of;
pub use strutil::basename_spec;
pub use strutil::get_basename;
pub use strutil::str_eq;
