pub mod eu_safety_gate;
pub mod nhtsa_recalls;
pub mod nhtsa_vpic;
