//! The program that the pipeline runs, embedded as the JSON text in which the
//! virtual machine takes a compiled Cairo program.

use vstd::prelude::*;
use vstd::string::StringSliceAdditionalSpecFns;

verus! {

/// A Cairo program that takes the pair (1, 1) ten steps along the Fibonacci
/// recurrence and writes the last value, 144, to the output segment. It is
/// laid out for proof mode and names every builtin, so that `main` receives
/// and returns eleven segment pointers:
///
/// ```text
/// __start__:  ap += 11
///             call main
/// __end__:    jmp rel 0
/// main:       [ap] = 1; ap++
///             [ap] = 1; ap++
///             [ap] = 10; ap++
///             call fib
///             [[fp - 13]] = [ap - 1]
///             [ap] = [fp - 13] + 1; ap++
///             [ap] = [fp - 12]; ap++      (and so on, up to [fp - 3])
///             ret
/// fib:        jmp body if [fp - 3] != 0
///             [ap] = [fp - 4]; ap++
///             ret
/// body:       [ap] = [fp - 4]; ap++
///             [ap] = [fp - 5] + [fp - 4]; ap++
///             [ap] = [fp - 3] - 1; ap++
///             call fib
///             ret
/// ```
pub const PROGRAM_JSON: &'static str = r#"{
    "attributes": [],
    "builtins": [
        "output", "pedersen", "range_check", "ecdsa", "bitwise", "ec_op",
        "keccak", "poseidon", "range_check96", "add_mod", "mul_mod"
    ],
    "data": [
        "0x40780017fff7fff",
        "0xb",
        "0x1104800180018000",
        "0x4",
        "0x10780017fff7fff",
        "0x0",
        "0x480680017fff8000",
        "0x1",
        "0x480680017fff8000",
        "0x1",
        "0x480680017fff8000",
        "0xa",
        "0x1104800180018000",
        "0x10",
        "0x400280007ff37fff",
        "0x482680017ff38000",
        "0x1",
        "0x480a7ff47fff8000",
        "0x480a7ff57fff8000",
        "0x480a7ff67fff8000",
        "0x480a7ff77fff8000",
        "0x480a7ff87fff8000",
        "0x480a7ff97fff8000",
        "0x480a7ffa7fff8000",
        "0x480a7ffb7fff8000",
        "0x480a7ffc7fff8000",
        "0x480a7ffd7fff8000",
        "0x208b7fff7fff7ffe",
        "0x20780017fff7ffd",
        "0x4",
        "0x480a7ffc7fff8000",
        "0x208b7fff7fff7ffe",
        "0x480a7ffc7fff8000",
        "0x482a7ffc7ffb8000",
        "0x482680017ffd8000",
        "0x800000000000011000000000000000000000000000000000000000000000000",
        "0x1104800180018000",
        "0x800000000000010fffffffffffffffffffffffffffffffffffffffffffffff9",
        "0x208b7fff7fff7ffe"
    ],
    "debug_info": null,
    "hints": {},
    "identifiers": {
        "__main__.__start__": {"pc": 0, "type": "label"},
        "__main__.__end__": {"pc": 4, "type": "label"},
        "__main__.main": {"decorators": [], "pc": 6, "type": "function"},
        "__main__.fib": {"decorators": [], "pc": 28, "type": "function"}
    },
    "main_scope": "__main__",
    "prime": "0x800000000000011000000000000000000000000000000000000000000000001",
    "reference_manager": {"references": []}
}
"#;

/// The embedded program image, byte for byte. Nothing is parsed here: that is
/// the execution engine's part.
pub fn program_image() -> (image: &'static [u8])
    ensures
        image@ == PROGRAM_JSON.spec_bytes(),
{
    PROGRAM_JSON.as_bytes()
}

} // verus!
