//! Gas-metered bridge between an EVM-style caller and native operations:
//! call outcomes, the log cost schedule, call-context rules, selector
//! dispatch, a gas budget and the estimate-then-reconcile dispatch protocol.

pub mod outcome;
pub mod cost;
pub mod gas;
pub mod context;
pub mod logs;
pub mod selector;
pub mod dispatch;
pub mod handle;
pub mod laws;

pub use outcome::{error, revert, succeed, ExitError, PrecompileFailure, PrecompileOutput, EvmResult};
pub use cost::{log_costs, G_LOG, G_LOGDATA, G_LOGTOPIC};
pub use gas::GasBudget;
pub use context::{check_function_modifier, FunctionModifier, PrecompileCallContext, H160, U256};
pub use logs::{Log, LogsBuilder, H256};
pub use selector::{read_selector, EvmDataReader};
pub use dispatch::{NativeOperationResult, RuntimeHelper};
pub use handle::CallHandle;
