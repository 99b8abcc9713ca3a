//! The model catalog: recipes, cluster profiles, deployment planning, policy
//! checks, plan digests and InferenceService rendering.
pub mod types;
pub mod profile;
pub mod state;
pub mod crds;
pub mod digest;
pub mod planner;
pub mod policy;
pub mod render;
pub mod capacity;
pub mod recipe;
