pub mod es_dgt;
pub mod hr_hak;
pub mod is_samgongustofa;
pub mod it_aci;
pub mod lt_regitra;
