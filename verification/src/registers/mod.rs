//! The contents of system registers and their fields.

pub mod ctr_el0;
pub mod icc_ctlr_el1;
pub mod icc_eoir1_el1;
pub mod icc_iar1_el1;
pub mod icc_igrpen1_el1;
pub mod icc_pmr_el1;
pub mod icc_sre_el1;
