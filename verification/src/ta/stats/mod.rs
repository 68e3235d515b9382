pub mod max;
pub mod min;
pub mod ret;
pub mod sharpe;
pub mod stddev;
pub mod var;
