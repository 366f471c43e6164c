use increment_by::counter::advance;
use increment_by::CounterError;
use increment_by::IncrementContractBy;
use soroban_sdk::testutils::ContractFunctionSet;
use soroban_sdk::testutils::EnvTestConfig;
use soroban_sdk::Address;
use soroban_sdk::Env;
use soroban_sdk::IntoVal;
use soroban_sdk::Symbol;
use soroban_sdk::TryFromVal;
use soroban_sdk::Val;

/// A contract whose one entry point hands its argument to the library.
struct Entry;

impl ContractFunctionSet for Entry {
    fn call(&self, func: &str, env: Env, args: &[Val]) -> Option<Val> {
        if func != "increment" || args.len() != 1 {
            return None;
        }
        let by = u64::try_from_val(&env, &args[0]).ok()?;
        let mut env = env;
        let count = IncrementContractBy::increment(&mut env, by).unwrap();
        Some(count.into_val(&env))
    }
}

struct Client {
    env: Env,
    contract_id: Address,
}

impl Client {
    fn new() -> Client {
        let env = Env::new_with_config(EnvTestConfig {
            capture_snapshot_at_drop: false,
        });
        let contract_id = env.register(Entry, ());
        Client { env, contract_id }
    }

    /// One invocation through the host's dispatch.
    fn increment(&self, by: &u64) -> u64 {
        let args = soroban_sdk::Vec::from_array(&self.env, [by.into_val(&self.env)]);
        self.env
            .invoke_contract(&self.contract_id, &Symbol::new(&self.env, "increment"), args)
    }

    /// One call of the library inside the contract's frame.
    fn call(&self, by: u64) -> Result<u64, CounterError> {
        let mut handle = self.env.clone();
        self.env
            .as_contract(&self.contract_id, || IncrementContractBy::increment(&mut handle, by))
    }

    fn store<V: IntoVal<Env, Val>>(&self, key: &str, value: V) {
        self.env.as_contract(&self.contract_id, || {
            let key = Symbol::new(&self.env, key);
            self.env.storage().persistent().set(&key, &value);
        })
    }

    fn load<V: TryFromVal<Env, Val>>(&self, key: &str) -> Option<V>
    where
        V::Error: std::fmt::Debug,
    {
        self.env.as_contract(&self.contract_id, || {
            let key = Symbol::new(&self.env, key);
            self.env.storage().persistent().get(&key)
        })
    }
}

#[test]
fn test() {
    let client = Client::new();

    let first: u64 = 3;
    let second: u64 = 1;
    let third: u64 = 1000;

    assert_eq!(client.increment(&first), 3);
    assert_eq!(client.increment(&second), 4);
    assert_eq!(client.increment(&third), 1004);
}

#[test]
fn fresh_counter_returns_the_amount() {
    assert_eq!(Client::new().call(42), Ok(42));
    assert_eq!(Client::new().call(0), Ok(0));
    assert_eq!(Client::new().call(u64::MAX), Ok(u64::MAX));
}

#[test]
fn fresh_counter_has_no_entry_until_written() {
    let client = Client::new();
    assert_eq!(client.load::<u64>("COUNTER"), None);
    assert_eq!(client.call(0), Ok(0));
    assert_eq!(client.load::<u64>("COUNTER"), Some(0));
}

#[test]
fn calls_return_running_sums() {
    let client = Client::new();
    let amounts: [u64; 6] = [5, 0, 17, 1, 1_000_000, 2];
    let mut sum: u64 = 0;
    for amount in amounts {
        sum += amount;
        assert_eq!(client.call(amount), Ok(sum));
    }
    assert_eq!(sum, 1_000_025);
    assert_eq!(client.load::<u64>("COUNTER"), Some(1_000_025));
}

#[test]
fn zero_reads_the_value_back() {
    let client = Client::new();
    assert_eq!(client.call(7), Ok(7));
    assert_eq!(client.call(0), Ok(7));
    assert_eq!(client.call(0), Ok(7));
    assert_eq!(client.load::<u64>("COUNTER"), Some(7));
}

#[test]
fn value_is_written_under_the_counter_key() {
    let client = Client::new();
    assert_eq!(client.call(9), Ok(9));
    assert_eq!(client.load::<u64>("COUNTER"), Some(9));
    client.store("COUNTER", 100u64);
    assert_eq!(client.call(1), Ok(101));
}

#[test]
fn numbers_past_the_small_range_survive_storage() {
    let client = Client::new();
    let large: u64 = (1 << 60) + 5;
    assert_eq!(client.call(large), Ok(large));
    assert_eq!(client.call(3), Ok(large + 3));
    assert_eq!(client.load::<u64>("COUNTER"), Some(large + 3));
}

#[test]
fn other_keys_are_left_alone() {
    let client = Client::new();
    client.store("OTHER", 5u64);
    client.store("counter", 11u64);
    assert_eq!(client.call(8), Ok(8));
    assert_eq!(client.load::<u64>("OTHER"), Some(5));
    assert_eq!(client.load::<u64>("counter"), Some(11));
    assert_eq!(client.load::<u64>("ABSENT"), None);
}

#[test]
fn counters_of_two_contracts_are_apart() {
    let first = Client::new();
    let second = Client::new();
    assert_eq!(first.call(4), Ok(4));
    assert_eq!(second.call(6), Ok(6));
    assert_eq!(first.call(0), Ok(4));
}

#[test]
fn entry_of_another_kind_is_a_mismatch_and_stays() {
    let client = Client::new();
    client.store("COUNTER", 7u32);
    assert_eq!(client.call(1), Err(CounterError::StorageTypeMismatch));
    assert_eq!(client.load::<u32>("COUNTER"), Some(7));
    assert_eq!(client.call(0), Err(CounterError::StorageTypeMismatch));

    let other = Client::new();
    other.store("COUNTER", Symbol::new(&other.env, "seven"));
    assert_eq!(other.call(1), Err(CounterError::StorageTypeMismatch));
    assert_eq!(
        other.load::<Symbol>("COUNTER"),
        Some(Symbol::new(&other.env, "seven"))
    );
}

#[test]
fn overflow_is_an_error_and_writes_nothing() {
    let client = Client::new();
    assert_eq!(client.call(u64::MAX - 1), Ok(u64::MAX - 1));
    assert_eq!(client.call(2), Err(CounterError::ArithmeticOverflow));
    assert_eq!(client.load::<u64>("COUNTER"), Some(u64::MAX - 1));
    assert_eq!(client.call(1), Ok(u64::MAX));
    assert_eq!(client.call(1), Err(CounterError::ArithmeticOverflow));
    assert_eq!(client.call(0), Ok(u64::MAX));
}

#[test]
fn advance_on_a_counter_never_written() {
    assert_eq!(advance(None, 0), Ok(0));
    assert_eq!(advance(None, 3), Ok(3));
    assert_eq!(advance(None, u64::MAX), Ok(u64::MAX));
}

#[test]
fn advance_adds_to_the_stored_number() {
    assert_eq!(advance(Some(Some(3)), 1), Ok(4));
    assert_eq!(advance(Some(Some(4)), 1000), Ok(1004));
    assert_eq!(advance(Some(Some(1004)), 0), Ok(1004));
    assert_eq!(advance(Some(Some(u64::MAX - 10)), 10), Ok(u64::MAX));
}

#[test]
fn advance_reports_each_error() {
    assert_eq!(advance(Some(None), 0), Err(CounterError::StorageTypeMismatch));
    assert_eq!(advance(Some(None), 5), Err(CounterError::StorageTypeMismatch));
    assert_eq!(advance(Some(Some(u64::MAX)), 1), Err(CounterError::ArithmeticOverflow));
    assert_eq!(advance(Some(Some(1)), u64::MAX), Err(CounterError::ArithmeticOverflow));
}
