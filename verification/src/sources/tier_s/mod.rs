pub mod cz_kontrolatachometru;
pub mod dk_dmr;
pub mod ee_transpordiamet;
pub mod lv_csdd;
pub mod nl_rdw;
pub mod no_vegvesen;
pub mod pl_historiapojazdu;
pub mod se_transportstyrelsen;
pub mod si_avtolog;
pub mod sk_stkonline;
pub mod ua_hsc;
pub mod uk_dvla;
pub mod uk_dvsa_mot;
