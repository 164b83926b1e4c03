pub mod bg_mobile;
pub mod de_kba;
pub mod fr_histovec;
