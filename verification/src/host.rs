//! The Soroban host as this library sees it.
//!
//! Nothing in this file is proved. Each item says in its doc comment what it
//! takes from `soroban_sdk`.

use soroban_sdk::Env;
use soroban_sdk::Symbol;
use soroban_sdk::TryFromVal;
use soroban_sdk::Val;
use vstd::prelude::*;

verus! {

/// `soroban_sdk::Env`, the handle through which a contract reaches its host.
/// Verus sees nothing inside it.
#[verifier::external_type_specification]
#[verifier::external_body]
pub struct ExEnv(soroban_sdk::Env);

/// What the persistent storage of the contract running in `env` holds under
/// symbols. A symbol is in the domain when an entry stands under it. The entry
/// is `Some(n)` when the stored value is the unsigned 64-bit number `n`, and
/// `None` when it is a value of any other kind.
pub uninterp spec fn persistent_entries(env: Env) -> Map<Seq<char>, Option<u64>>;

/// Whether the host serves the storage calls made through `env`: a contract is
/// running in it, and for the length of that contract's invocation the host
/// neither runs out of budget nor refuses the entries the contract touches.
/// Where this fails, `soroban_sdk` panics inside the storage call.
pub uninterp spec fn storage_served(env: Env) -> bool;

/// The characters a symbol may hold: `_`, digits and ASCII letters.
pub open spec fn symbol_char(c: char) -> bool {
    c == '_' || ('0' <= c && c <= '9') || ('A' <= c && c <= 'Z') || ('a' <= c && c <= 'z')
}

/// The texts that `Symbol::new` accepts: at most 32 symbol characters.
pub open spec fn valid_symbol(text: Seq<char>) -> bool {
    &&& text.len() <= 32
    &&& forall|i: int| 0 <= i < text.len() ==> symbol_char(#[trigger] text[i])
}

/// Calls `Persistent::get` of `soroban_sdk` with the symbol `key`, reading the
/// entry as a raw `Val`, and then `u64::try_from_val` on what was found.
///
/// Trusted: the result is `None` exactly when no entry stands under `key`;
/// otherwise it is `Some` of the entry as `persistent_entries` describes it.
/// Reading as `Val` cannot fail, and a value that is no `u64` gives an error
/// from `try_from_val`, not a panic. `Symbol::new` panics on a text that is no
/// valid symbol, and the storage call panics where the host does not serve
/// it: `requires` leaves both out.
#[verifier::external_body]
pub(crate) fn persistent_get(env: &Env, key: &str) -> (found: Option<Option<u64>>)
    requires
        storage_served(*env),
        valid_symbol(key@),
    ensures
        found == (if persistent_entries(*env).contains_key(key@) {
            Some(persistent_entries(*env)[key@])
        } else {
            None::<Option<u64>>
        }),
{
    let held: Option<Val> = env.storage().persistent().get(&Symbol::new(env, key));
    match held {
        Some(raw) => Some(u64::try_from_val(env, &raw).ok()),
        None => None,
    }
}

/// Calls `Persistent::set` of `soroban_sdk` with the symbol `key` and the
/// number `value`.
///
/// Trusted: afterwards the entry under `key` is `value`, every other entry is
/// as before, and the host goes on serving the invocation. The method takes
/// `&self` and writes through the handle; the `&mut` here lets the contract
/// speak of the storage before and after. `requires` leaves out the inputs on
/// which `Symbol::new` or the storage call panics.
#[verifier::external_body]
pub(crate) fn persistent_set(env: &mut Env, key: &str, value: u64)
    requires
        storage_served(*old(env)),
        valid_symbol(key@),
    ensures
        persistent_entries(*final(env)) == persistent_entries(*old(env)).insert(
            key@,
            Some(value),
        ),
        storage_served(*final(env)),
{
    env.storage().persistent().set(&Symbol::new(env, key), &value);
}

} // verus!
