//! Java launch-settings resolution and instance cache seeding for game instances.

pub mod system_memory;
pub mod text;
pub mod jvm_args;
pub mod config_file;
pub mod java_recommendations;
pub mod checksum;
pub mod timestamp;
pub mod cache_seeder;
pub mod ads;
