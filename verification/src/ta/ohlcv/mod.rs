pub mod ad;
pub mod adosc;
pub mod adr;
pub mod bbands;
pub mod cdl_dragonfly_doji;
pub mod cdl_marubozu;
pub mod ema;
pub mod ht_dcperiod;
pub mod kdj;
pub mod medprice;
pub mod mom;
pub mod rma;
pub mod roc;
pub mod sar;
pub mod sma;
pub mod tpo;
pub mod trix;
pub mod vegas;
pub mod vwap;
