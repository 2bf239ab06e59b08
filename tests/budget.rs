use wasm::{Config, Error, ExecutionParams, GasCounter, RuntimeError};

#[test]
fn default_config_values() {
    let c = Config::default();
    assert_eq!(c.grow_mem_cost, 1);
    assert_eq!(c.regular_op_cost, 1);
    assert_eq!(c.return_data_per_byte_cost, 1);
    assert_eq!(c.max_stack_height, 65536);
    assert_eq!(c.max_memory_pages, 16);
    assert_eq!(c.gas_limit, 131072);
}

#[test]
fn execution_params_copy_their_config() {
    let params = ExecutionParams { config: Config { gas_limit: 5, ..Config::default() } };
    let copy = params.clone();
    assert_eq!(copy.config.gas_limit, 5);
    assert_eq!(copy.config.max_memory_pages, 16);
}

#[test]
fn zero_gas_limit_rejects_first_operation() {
    let config = Config { gas_limit: 0, ..Config::default() };
    let mut gas = GasCounter::new(&config);
    let r = gas.charge(config.regular_op_cost as u64);
    assert_eq!(r, Err(RuntimeError::GasLimit));
    assert_eq!(gas.used, 0);
    match r.map_err(Error::from) {
        Err(Error::Runtime(RuntimeError::GasLimit)) => {}
        other => panic!("unexpected {:?}", other),
    }
}

#[test]
fn new_counter_starts_empty() {
    let config = Config::default();
    let gas = GasCounter::new(&config);
    assert_eq!(gas.used, 0);
    assert_eq!(gas.limit, 131072);
}

#[test]
fn charges_up_to_the_limit_exactly() {
    let config = Config { gas_limit: 10, ..Config::default() };
    let mut gas = GasCounter::new(&config);
    assert_eq!(gas.charge(4), Ok(()));
    assert_eq!(gas.used, 4);
    assert_eq!(gas.charge(6), Ok(()));
    assert_eq!(gas.used, 10);
    assert_eq!(gas.charge(1), Err(RuntimeError::GasLimit));
    assert_eq!(gas.used, 10);
    assert_eq!(gas.charge(0), Ok(()));
    assert_eq!(gas.used, 10);
}

#[test]
fn over_limit_charge_leaves_counter_unchanged() {
    let mut gas = GasCounter { used: 3, limit: 5 };
    assert_eq!(gas.charge(3), Err(RuntimeError::GasLimit));
    assert_eq!(gas.used, 3);
    assert_eq!(gas.limit, 5);
}

#[test]
fn charge_near_the_largest_value_does_not_wrap() {
    let mut gas = GasCounter { used: u64::MAX - 1, limit: u64::MAX };
    assert_eq!(gas.charge(2), Err(RuntimeError::GasLimit));
    assert_eq!(gas.used, u64::MAX - 1);
    assert_eq!(gas.charge(1), Ok(()));
    assert_eq!(gas.used, u64::MAX);
    let mut over = GasCounter { used: 7, limit: 3 };
    assert_eq!(over.charge(u64::MAX), Err(RuntimeError::GasLimit));
}
