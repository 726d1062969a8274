//! Loading an application and attesting what was loaded.

use vstd::prelude::*;

verus! {

/// The hexadecimal digit of a number below sixteen.
pub open spec fn hex_digit(value: int) -> char {
    if value < 10 {
        ('0' as u32 + value) as char
    } else {
        ('a' as u32 + value - 10) as char
    }
}

/// Bytes in hexadecimal: two digits for each byte, the upper half of it first.
pub open spec fn hex(bytes: Seq<u8>) -> Seq<char> {
    Seq::new(
        2 * bytes.len(),
        |i: int|
            if i % 2 == 0 {
                hex_digit(bytes[i / 2] as int / 16)
            } else {
                hex_digit(bytes[i / 2] as int % 16)
            },
    )
}

/// The hexadecimal digit of `value`, as a text.
fn digit_text(value: u8) -> (text: &'static str)
    requires
        value < 16,
    ensures
        text@ == seq![hex_digit(value as int)],
{
    proof {
        reveal_strlit("0");
        reveal_strlit("1");
        reveal_strlit("2");
        reveal_strlit("3");
        reveal_strlit("4");
        reveal_strlit("5");
        reveal_strlit("6");
        reveal_strlit("7");
        reveal_strlit("8");
        reveal_strlit("9");
        reveal_strlit("a");
        reveal_strlit("b");
        reveal_strlit("c");
        reveal_strlit("d");
        reveal_strlit("e");
        reveal_strlit("f");
    }
    let text: &'static str = match value {
        0 => "0",
        1 => "1",
        2 => "2",
        3 => "3",
        4 => "4",
        5 => "5",
        6 => "6",
        7 => "7",
        8 => "8",
        9 => "9",
        10 => "a",
        11 => "b",
        12 => "c",
        13 => "d",
        14 => "e",
        _ => "f",
    };
    assert(text@.len() == 1);
    assert(text@ =~= seq![hex_digit(value as int)]);
    text
}

/// A digest in hexadecimal, as it is logged.
pub fn digest_hex(digest: &[u8]) -> (text: String)
    ensures
        text@ == hex(digest@),
{
    let mut text = String::new();
    let mut i: usize = 0;
    assert(text@ =~= hex(digest@.take(0)));
    while i < digest.len()
        invariant
            i <= digest@.len(),
            text@ == hex(digest@.take(i as int)),
        decreases digest@.len() - i,
    {
        let byte = digest[i];
        text.append(digit_text(byte / 16));
        text.append(digit_text(byte % 16));
        i = i + 1;
        assert(text@ =~= hex(digest@.take(i as int)));
    }
    assert(digest@.take(i as int) =~= digest@);
    text
}

/// Whether `key` and `dice_data` attest `application` on top of `stage0_dice_data`:
/// there is one digest of all of the application, and both come of that digest and
/// of the same data of the stage before.
pub open spec fn attests<S, K, D, Measure, Derive, Generate>(
    application: Vec<u8>,
    stage0_dice_data: S,
    measure: Measure,
    derive: Derive,
    generate: Generate,
    key: K,
    dice_data: D,
) -> bool where
    Measure: FnOnce(&Vec<u8>) -> [u8; 32],
    Derive: FnOnce(&S, &[u8; 32]) -> K,
    Generate: FnOnce(S, &[u8; 32]) -> D,
 {
    exists|digest: [u8; 32]|
        #![trigger call_ensures(measure, (&application,), digest)]
        {
            &&& call_ensures(measure, (&application,), digest)
            &&& call_ensures(derive, (&stage0_dice_data, &digest), key)
            &&& call_ensures(generate, (stage0_dice_data, &digest), dice_data)
        }
}

/// Attests an application that was loaded: measures it, and has the key derived
/// and the DICE data generated from the digest and from the data of the stage
/// before. The three computations are handed in. An application that could not be
/// loaded is not attested.
pub fn load_and_attest_app<E, S, K, D, Measure, Derive, Generate>(
    loaded: Result<Vec<u8>, E>,
    stage0_dice_data: S,
    measure: Measure,
    derive: Derive,
    generate: Generate,
) -> (res: (K, D)) where
    E: std::fmt::Debug,
    Measure: FnOnce(&Vec<u8>) -> [u8; 32],
    Derive: FnOnce(&S, &[u8; 32]) -> K,
    Generate: FnOnce(S, &[u8; 32]) -> D,

    requires
        loaded is Ok,
        call_requires(measure, (&loaded->Ok_0,)),
        forall|digest: [u8; 32]| #[trigger]
            call_ensures(measure, (&loaded->Ok_0,), digest) ==> call_requires(
                derive,
                (&stage0_dice_data, &digest),
            ) && call_requires(generate, (stage0_dice_data, &digest)),
    ensures
        attests(loaded->Ok_0, stage0_dice_data, measure, derive, generate, res.0, res.1),
        exists|digest: [u8; 32]|
            #![trigger call_ensures(measure, (&loaded->Ok_0,), digest)]
            {
                &&& call_ensures(measure, (&loaded->Ok_0,), digest)
                &&& call_ensures(derive, (&stage0_dice_data, &digest), res.0)
                &&& call_ensures(generate, (stage0_dice_data, &digest), res.1)
            },
{
    let application_bytes = loaded.expect("failed to load");
    let app_digest = measure(&application_bytes);
    let derived_key = derive(&stage0_dice_data, &app_digest);
    let dice_data = generate(stage0_dice_data, &app_digest);
    (derived_key, dice_data)
}

/// Whether measuring depends on nothing but the bytes of an application.
pub open spec fn measuring_is_deterministic<Measure>(measure: Measure) -> bool where
    Measure: FnOnce(&Vec<u8>) -> [u8; 32],
 {
    forall|application: Vec<u8>, other: Vec<u8>, digest: [u8; 32], other_digest: [u8; 32]|
        #![trigger call_ensures(measure, (&application,), digest), call_ensures(measure, (&other,), other_digest)]
        application@ == other@ && call_ensures(measure, (&application,), digest) && call_ensures(
            measure,
            (&other,),
            other_digest,
        ) ==> digest@ == other_digest@
}

/// Whether deriving a key depends on nothing but the data of the stage before and
/// the bytes of a digest.
pub open spec fn deriving_is_deterministic<S, K, Derive>(derive: Derive) -> bool where
    Derive: FnOnce(&S, &[u8; 32]) -> K,
 {
    forall|stage0_dice_data: S, digest: [u8; 32], other_digest: [u8; 32], key: K, other_key: K|
        #![trigger call_ensures(derive, (&stage0_dice_data, &digest), key), call_ensures(derive, (&stage0_dice_data, &other_digest), other_key)]
        digest@ == other_digest@ && call_ensures(derive, (&stage0_dice_data, &digest), key)
            && call_ensures(derive, (&stage0_dice_data, &other_digest), other_key) ==> key
            == other_key
}

/// Whether generating DICE data depends on nothing but the data of the stage before
/// and the bytes of a digest.
pub open spec fn generating_is_deterministic<S, D, Generate>(generate: Generate) -> bool where
    Generate: FnOnce(S, &[u8; 32]) -> D,
 {
    forall|stage0_dice_data: S, digest: [u8; 32], other_digest: [u8; 32], data: D, other_data: D|
        #![trigger call_ensures(generate, (stage0_dice_data, &digest), data), call_ensures(generate, (stage0_dice_data, &other_digest), other_data)]
        digest@ == other_digest@ && call_ensures(generate, (stage0_dice_data, &digest), data)
            && call_ensures(generate, (stage0_dice_data, &other_digest), other_data) ==> data
            == other_data
}

/// The key depends on what was loaded only through the bytes of the application:
/// where measuring and deriving are deterministic, attesting the same bytes on top
/// of the same data of the stage before gives the same key.
pub proof fn law_same_application_same_key<S, K, D, Measure, Derive, Generate>(
    application: Vec<u8>,
    other: Vec<u8>,
    stage0_dice_data: S,
    measure: Measure,
    derive: Derive,
    generate: Generate,
    attested: (K, D),
    other_attested: (K, D),
) where
    Measure: FnOnce(&Vec<u8>) -> [u8; 32],
    Derive: FnOnce(&S, &[u8; 32]) -> K,
    Generate: FnOnce(S, &[u8; 32]) -> D,

    requires
        application@ == other@,
        measuring_is_deterministic(measure),
        deriving_is_deterministic::<S, K, Derive>(derive),
        attests(
            application,
            stage0_dice_data,
            measure,
            derive,
            generate,
            attested.0,
            attested.1,
        ),
        attests(
            other,
            stage0_dice_data,
            measure,
            derive,
            generate,
            other_attested.0,
            other_attested.1,
        ),
    ensures
        attested.0 == other_attested.0,
{
}

/// The DICE data depend on what was loaded only through the bytes of the
/// application: where measuring and generating are deterministic, attesting the same
/// bytes on top of the same data of the stage before gives the same DICE data.
pub proof fn law_same_application_same_dice_data<S, K, D, Measure, Derive, Generate>(
    application: Vec<u8>,
    other: Vec<u8>,
    stage0_dice_data: S,
    measure: Measure,
    derive: Derive,
    generate: Generate,
    attested: (K, D),
    other_attested: (K, D),
) where
    Measure: FnOnce(&Vec<u8>) -> [u8; 32],
    Derive: FnOnce(&S, &[u8; 32]) -> K,
    Generate: FnOnce(S, &[u8; 32]) -> D,

    requires
        application@ == other@,
        measuring_is_deterministic(measure),
        generating_is_deterministic::<S, D, Generate>(generate),
        attests(
            application,
            stage0_dice_data,
            measure,
            derive,
            generate,
            attested.0,
            attested.1,
        ),
        attests(
            other,
            stage0_dice_data,
            measure,
            derive,
            generate,
            other_attested.0,
            other_attested.1,
        ),
    ensures
        attested.1 == other_attested.1,
{
}

/// Digests that differ are logged differently, and each byte takes two digits.
pub proof fn law_hex_is_injective(bytes: Seq<u8>, other: Seq<u8>)
    ensures
        hex(bytes).len() == 2 * bytes.len(),
        hex(bytes) == hex(other) <==> bytes == other,
{
    if hex(bytes) == hex(other) {
        assert(hex(bytes).len() == hex(other).len());
        assert forall|i: int| 0 <= i < bytes.len() implies bytes[i] == other[i] by {
            let byte = bytes[i] as int;
            let other_byte = other[i] as int;
            assert(hex(bytes)[2 * i] == hex_digit(byte / 16));
            assert(hex(other)[2 * i] == hex_digit(other_byte / 16));
            assert(hex(bytes)[2 * i + 1] == hex_digit(byte % 16));
            assert(hex(other)[2 * i + 1] == hex_digit(other_byte % 16));
            assert(byte / 16 == other_byte / 16);
            assert(byte % 16 == other_byte % 16);
        }
        assert(bytes =~= other);
    }
}

/// The text of bytes can be read back: it has two digits for each byte, all of them
/// among `0` to `9` and `a` to `f`, and sixteen times the value of the first of the
/// two, plus the value of the second, is the byte.
pub proof fn law_hex_can_be_read_back(bytes: Seq<u8>, i: int)
    requires
        0 <= i < bytes.len(),
    ensures
        ({
            let value = |digit: char|
                if digit <= '9' {
                    digit as int - '0' as int
                } else {
                    digit as int - 'a' as int + 10
                };
            let upper = hex(bytes)[2 * i];
            let lower = hex(bytes)[2 * i + 1];
            &&& hex(bytes).len() == 2 * bytes.len()
            &&& '0' <= upper <= '9' || 'a' <= upper <= 'f'
            &&& '0' <= lower <= '9' || 'a' <= lower <= 'f'
            &&& 16 * value(upper) + value(lower) == bytes[i]
        }),
{
}

/// The text of bytes is the text of a first part of them followed by the text of the
/// rest.
pub proof fn law_hex_of_parts(bytes: Seq<u8>, rest: Seq<u8>)
    ensures
        hex(bytes + rest) == hex(bytes) + hex(rest),
{
    assert(hex(bytes + rest) =~= hex(bytes) + hex(rest));
}

/// Where measuring an application can only give one digest, both the key and the DICE
/// data come of that digest and of the data of the stage before.
pub proof fn law_digest_decides<S, K, D, Measure, Derive, Generate>(
    application: Vec<u8>,
    stage0_dice_data: S,
    measure: Measure,
    derive: Derive,
    generate: Generate,
    attested: (K, D),
    digest: [u8; 32],
) where
    Measure: FnOnce(&Vec<u8>) -> [u8; 32],
    Derive: FnOnce(&S, &[u8; 32]) -> K,
    Generate: FnOnce(S, &[u8; 32]) -> D,

    requires
        attests(
            application,
            stage0_dice_data,
            measure,
            derive,
            generate,
            attested.0,
            attested.1,
        ),
        forall|other: [u8; 32]| #[trigger]
            call_ensures(measure, (&application,), other) ==> other == digest,
    ensures
        call_ensures(measure, (&application,), digest),
        call_ensures(derive, (&stage0_dice_data, &digest), attested.0),
        call_ensures(generate, (stage0_dice_data, &digest), attested.1),
{
}

} // verus!
