//! The stateless demo commands: `greet`, `data` and `get_waffle`.
//! They exist to exercise the command dispatch and carry no state.

use vstd::prelude::*;
use vstd::string::StringExecFns;

verus! {

/// Payload returned by the `data` command.
pub struct Data {
    pub waffles: String,
}

/// Payload returned by the `get_waffle` command.
pub struct Waffle {
    pub count: i32,
}

/// What `greet` returns for a given caller-supplied name: the templated
/// greeting for the sentinel name, the fixed error string for every other.
pub open spec fn greet_post(name: Seq<char>, r: Result<String, String>) -> bool {
    &&& name == "waffles"@ ==> r is Ok && r->Ok_0@ == "Hello Elm '"@ + name + "', welcome to Tauri"@
    &&& name != "waffles"@ ==> r is Err && r->Err_0@ == "fbfbfbfbf"@
}

/// Demo command: succeeds with a templated greeting only when `name`
/// equals the sentinel value; otherwise fails with a fixed error string.
pub fn greet(name: &str) -> (r: Result<String, String>)
    ensures
        greet_post(name@, r),
{
    let sentinel = "waffles".to_owned();
    if name.to_owned() == sentinel {
        let greeting = "Hello Elm '".to_owned().concat(name).concat("', welcome to Tauri");
        Ok(greeting)
    } else {
        Err("fbfbfbfbf".to_owned())
    }
}

/// For the sentinel name, the greeting `greet` builds is exactly the
/// fixed full string.
pub proof fn lemma_greet_sentinel(r: Result<String, String>)
    requires
        greet_post("waffles"@, r),
    ensures
        r is Ok,
        r->Ok_0@ == "Hello Elm 'waffles', welcome to Tauri"@,
{
    reveal_strlit("waffles");
    reveal_strlit("Hello Elm '");
    reveal_strlit("', welcome to Tauri");
    reveal_strlit("Hello Elm 'waffles', welcome to Tauri");
    assert(r->Ok_0@ =~= "Hello Elm 'waffles', welcome to Tauri"@);
}

/// What `data` returns: always the same fixed payload.
pub open spec fn data_post(r: Result<Data, String>) -> bool {
    r is Ok && r->Ok_0.waffles@ == "are great"@
}

/// Demo command: always succeeds with a fixed payload; pure and
/// side-effect-free.
pub fn data() -> (r: Result<Data, String>)
    ensures
        data_post(r),
{
    Ok(Data { waffles: "are great".to_owned() })
}

/// What `get_waffle` returns: always the same fixed payload.
pub open spec fn waffle_post(r: Result<Waffle, String>) -> bool {
    r is Ok && r->Ok_0.count == 12
}

/// Demo command: always succeeds with a fixed payload; pure and
/// side-effect-free.
pub fn get_waffle() -> (r: Result<Waffle, String>)
    ensures
        waffle_post(r),
{
    Ok(Waffle { count: 12 })
}

/// `data` is deterministic and idempotent: any two results its contract
/// allows, from any two calls, agree on the payload.
pub proof fn lemma_data_deterministic(r1: Result<Data, String>, r2: Result<Data, String>)
    requires
        data_post(r1),
        data_post(r2),
    ensures
        r1 is Ok,
        r2 is Ok,
        r1->Ok_0.waffles@ == r2->Ok_0.waffles@,
{
}

/// `get_waffle` is deterministic and idempotent: any two results its
/// contract allows, from any two calls, agree on the payload.
pub proof fn lemma_get_waffle_deterministic(r1: Result<Waffle, String>, r2: Result<Waffle, String>)
    requires
        waffle_post(r1),
        waffle_post(r2),
    ensures
        r1 is Ok,
        r2 is Ok,
        r1->Ok_0.count == r2->Ok_0.count,
{
}

} // verus!
