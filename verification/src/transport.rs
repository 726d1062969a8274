//! Transports that a pair of processes can talk over, and how they are named on
//! the command line.

use std::str::FromStr;
use vstd::prelude::*;

verus! {

/// A transport.
#[derive(Debug, Clone, Copy, PartialEq, Eq, Structural)]
pub enum Transport {
    /// TCP sockets.
    Tcp,
    /// Unix domain sockets.
    Uds,
}

/// What a name that stands for no transport is answered with.
#[derive(Debug, Clone, Copy, PartialEq, Eq, Structural)]
pub struct TransportParseError {}

/// The command-line options that select a transport.
#[derive(Debug, Clone, Copy, PartialEq, Eq, Structural)]
pub struct Opt {
    pub transport: Transport,
}

/// The name that is parsed where the command line gives none.
pub const DEFAULT_TRANSPORT: &'static str = "tcp";

/// The lower-case form of a text, as Unicode defines it.
pub uninterp spec fn unicode_lowercase(text: Seq<char>) -> Seq<char>;

/// Whether `c` is an ASCII character.
pub open spec fn is_ascii_char(c: char) -> bool {
    (c as u32) < 0x80
}

/// Whether every character of `text` is an ASCII character.
pub open spec fn is_ascii_text(text: Seq<char>) -> bool {
    forall|i: int| 0 <= i < text.len() ==> is_ascii_char(#[trigger] text[i])
}

/// The lower-case form of an ASCII character: the letters `A` to `Z` become `a`
/// to `z`, and nothing else changes.
pub open spec fn ascii_lowercase_char(c: char) -> char {
    if 'A' <= c <= 'Z' {
        ((c as u32) + 0x20) as char
    } else {
        c
    }
}

/// The lower-case form of an ASCII text, character by character.
pub open spec fn ascii_lowercase(text: Seq<char>) -> Seq<char> {
    Seq::new(text.len(), |i: int| ascii_lowercase_char(text[i]))
}

/// The transport that a lower-case name stands for, if it stands for one.
pub open spec fn named_transport(name: Seq<char>) -> Result<Transport, TransportParseError> {
    if name == "tcp"@ {
        Ok(Transport::Tcp)
    } else if name == "uds"@ {
        Ok(Transport::Uds)
    } else {
        Err(TransportParseError {  })
    }
}

/// Calls `str::to_lowercase`. The result is the Unicode lower-case form of
/// `text`, which depends on `text` alone; where `text` is ASCII, the letters `A`
/// to `Z` become `a` to `z` and every other character stays.
#[verifier::external_body]
fn to_lowercase(text: &str) -> (lowered: String)
    ensures
        lowered@ == unicode_lowercase(text@),
        is_ascii_text(text@) ==> lowered@ == ascii_lowercase(text@),
{
    text.to_lowercase()
}

impl Transport {
    /// The transport that `name`, a name in lower case, stands for.
    pub fn from_lowercase(name: &str) -> (res: Result<Transport, TransportParseError>)
        ensures
            res == named_transport(name@),
            res == Ok::<Transport, TransportParseError>(Transport::Tcp) <==> name@ == seq![
                't',
                'c',
                'p',
            ],
            res == Ok::<Transport, TransportParseError>(Transport::Uds) <==> name@ == seq![
                'u',
                'd',
                's',
            ],
    {
        proof {
            law_names(name@);
        }
        let name = name.to_owned();
        if name == "tcp".to_owned() {
            Ok(Transport::Tcp)
        } else if name == "uds".to_owned() {
            Ok(Transport::Uds)
        } else {
            Err(TransportParseError {  })
        }
    }
}

impl FromStr for Transport {
    type Err = TransportParseError;

    /// The transport that `transport` names, in whatever case it is written.
    fn from_str(transport: &str) -> (res: Result<Transport, TransportParseError>)
        ensures
            res == named_transport(unicode_lowercase(transport@)),
            is_ascii_text(transport@) ==> res == named_transport(ascii_lowercase(transport@)),
            res == Ok::<Transport, TransportParseError>(Transport::Tcp) <==> unicode_lowercase(
                transport@,
            ) == seq!['t', 'c', 'p'],
            res == Ok::<Transport, TransportParseError>(Transport::Uds) <==> unicode_lowercase(
                transport@,
            ) == seq!['u', 'd', 's'],
            (forall|i: int|
                0 <= i < transport@.len() ==> (#[trigger] transport@[i] as u32) < 0x80) ==> {
                &&& res == Ok::<Transport, TransportParseError>(Transport::Tcp) <==> {
                    &&& transport@.len() == 3
                    &&& transport@[0] == 't' || transport@[0] == 'T'
                    &&& transport@[1] == 'c' || transport@[1] == 'C'
                    &&& transport@[2] == 'p' || transport@[2] == 'P'
                }
                &&& res == Ok::<Transport, TransportParseError>(Transport::Uds) <==> {
                    &&& transport@.len() == 3
                    &&& transport@[0] == 'u' || transport@[0] == 'U'
                    &&& transport@[1] == 'd' || transport@[1] == 'D'
                    &&& transport@[2] == 's' || transport@[2] == 'S'
                }
            },
    {
        proof {
            law_names(unicode_lowercase(transport@));
            if is_ascii_text(transport@) {
                law_ascii_names(transport@);
            }
        }
        let lowered = to_lowercase(transport);
        Transport::from_lowercase(lowered.as_str())
    }
}

impl TransportParseError {
    /// The text that the error is shown as.
    pub fn to_string(&self) -> (text: String)
        ensures
            text@ == "Invalid transport"@,
    {
        "Invalid transport".to_owned()
    }
}

/// What the options select, given what the command line holds for the transport:
/// the transport that a name stands for, TCP where there is no name.
pub open spec fn selected_opt(lowered: Option<Seq<char>>) -> Result<Opt, TransportParseError> {
    match lowered {
        None => Ok(Opt { transport: Transport::Tcp }),
        Some(name) => match named_transport(name) {
            Ok(transport) => Ok(Opt { transport }),
            Err(err) => Err(err),
        },
    }
}

impl Opt {
    /// The options, from the value of `--transport`, if it was given.
    pub fn from_argument(argument: Option<&str>) -> (res: Result<Opt, TransportParseError>)
        ensures
            argument is None ==> res == selected_opt(None),
            argument matches Some(name) ==> res == selected_opt(Some(unicode_lowercase(name@))),
            argument matches Some(name) ==> (is_ascii_text(name@) ==> res == selected_opt(
                Some(ascii_lowercase(name@)),
            )),
            argument is None ==> res == Ok::<Opt, TransportParseError>(
                Opt { transport: Transport::Tcp },
            ),
            argument matches Some(name) ==> {
                &&& res == Ok::<Opt, TransportParseError>(Opt { transport: Transport::Tcp })
                    <==> unicode_lowercase(name@) == seq!['t', 'c', 'p']
                &&& res == Ok::<Opt, TransportParseError>(Opt { transport: Transport::Uds })
                    <==> unicode_lowercase(name@) == seq!['u', 'd', 's']
            },
            argument matches Some(name) ==> ((forall|i: int|
                0 <= i < name@.len() ==> (#[trigger] name@[i] as u32) < 0x80) ==> {
                &&& res == Ok::<Opt, TransportParseError>(Opt { transport: Transport::Tcp }) <==> {
                    &&& name@.len() == 3
                    &&& name@[0] == 't' || name@[0] == 'T'
                    &&& name@[1] == 'c' || name@[1] == 'C'
                    &&& name@[2] == 'p' || name@[2] == 'P'
                }
                &&& res == Ok::<Opt, TransportParseError>(Opt { transport: Transport::Uds }) <==> {
                    &&& name@.len() == 3
                    &&& name@[0] == 'u' || name@[0] == 'U'
                    &&& name@[1] == 'd' || name@[1] == 'D'
                    &&& name@[2] == 's' || name@[2] == 'S'
                }
            }),
    {
        let name = match argument {
            Some(name) => name,
            None => DEFAULT_TRANSPORT,
        };
        proof {
            reveal_strlit("tcp");
            assert(ascii_lowercase("tcp"@) =~= "tcp"@);
        }
        match Transport::from_str(name) {
            Ok(transport) => Ok(Opt { transport }),
            Err(err) => Err(err),
        }
    }
}

/// A stream that is connected to a peer.
pub trait ConnectedStream: Send + 'static {

}

/// Whether `c` is the letter whose two cases are `upper` and `lower`.
pub open spec fn is_letter(c: char, upper: char, lower: char) -> bool {
    c == upper || c == lower
}

/// The ASCII texts that name TCP are the spellings of `tcp`, each letter in either
/// case; those that name Unix domain sockets are the spellings of `uds`; every
/// other ASCII text is refused.
pub proof fn law_ascii_names(text: Seq<char>)
    requires
        is_ascii_text(text),
    ensures
        named_transport(ascii_lowercase(text)) == Ok::<Transport, TransportParseError>(
            Transport::Tcp,
        ) <==> text.len() == 3 && is_letter(text[0], 'T', 't') && is_letter(text[1], 'C', 'c')
            && is_letter(text[2], 'P', 'p'),
        named_transport(ascii_lowercase(text)) == Ok::<Transport, TransportParseError>(
            Transport::Uds,
        ) <==> text.len() == 3 && is_letter(text[0], 'U', 'u') && is_letter(text[1], 'D', 'd')
            && is_letter(text[2], 'S', 's'),
{
    reveal_strlit("tcp");
    reveal_strlit("uds");
    let lowered = ascii_lowercase(text);
    if text.len() == 3 {
        assert(lowered =~= seq![
            ascii_lowercase_char(text[0]),
            ascii_lowercase_char(text[1]),
            ascii_lowercase_char(text[2]),
        ]);
        assert("tcp"@ =~= seq!['t', 'c', 'p']);
        assert("uds"@ =~= seq!['u', 'd', 's']);
        assert(lowered == "tcp"@ <==> lowered[0] == 't' && lowered[1] == 'c' && lowered[2] == 'p')
            by {
            if lowered[0] == 't' && lowered[1] == 'c' && lowered[2] == 'p' {
                assert(lowered =~= "tcp"@);
            }
        }
        assert(lowered == "uds"@ <==> lowered[0] == 'u' && lowered[1] == 'd' && lowered[2] == 's')
            by {
            if lowered[0] == 'u' && lowered[1] == 'd' && lowered[2] == 's' {
                assert(lowered =~= "uds"@);
            }
        }
    } else {
        assert(lowered.len() != "tcp"@.len());
        assert(lowered.len() != "uds"@.len());
    }
}

/// The case in which an ASCII name is written makes no difference to what it
/// stands for.
pub proof fn law_case_is_ignored(text: Seq<char>, other: Seq<char>)
    requires
        is_ascii_text(text),
        is_ascii_text(other),
        text.len() == other.len(),
        forall|i: int|
            0 <= i < text.len() ==> ascii_lowercase_char(#[trigger] text[i])
                == ascii_lowercase_char(other[i]),
    ensures
        named_transport(ascii_lowercase(text)) == named_transport(ascii_lowercase(other)),
{
    assert(ascii_lowercase(text) =~= ascii_lowercase(other));
}

/// A name stands for TCP exactly where it is made of the letters `t`, `c` and `p`, for
/// Unix domain sockets exactly where it is made of `u`, `d` and `s`, and is refused
/// everywhere else.
pub proof fn law_names(name: Seq<char>)
    ensures
        named_transport(name) == Ok::<Transport, TransportParseError>(Transport::Tcp) <==> name
            == seq!['t', 'c', 'p'],
        named_transport(name) == Ok::<Transport, TransportParseError>(Transport::Uds) <==> name
            == seq!['u', 'd', 's'],
        named_transport(name) is Err <==> name != seq!['t', 'c', 'p'] && name != seq![
            'u',
            'd',
            's',
        ],
{
    reveal_strlit("tcp");
    reveal_strlit("uds");
    assert("tcp"@ =~= seq!['t', 'c', 'p']);
    assert("uds"@ =~= seq!['u', 'd', 's']);
    assert(seq!['t', 'c', 'p'][0] != seq!['u', 'd', 's'][0]);
}

/// Lower case keeps the length of an ASCII text and every character of it but the
/// letters `A` to `Z`, each of which moves to the letter `a` to `z` in the same place
/// of the alphabet.
pub proof fn law_ascii_lowercase(text: Seq<char>, i: int)
    requires
        is_ascii_text(text),
        0 <= i < text.len(),
    ensures
        (text[i] as u32) < 0x80,
        ascii_lowercase(text).len() == text.len(),
        'A' <= text[i] <= 'Z' ==> ascii_lowercase(text)[i] as int - 'a' as int == text[i] as int
            - 'A' as int,
        !('A' <= text[i] <= 'Z') ==> ascii_lowercase(text)[i] == text[i],
{
    assert(is_ascii_char(text[i]));
}

/// The options select a transport exactly where the name stands for one, and then that
/// one; a name that stands for none is refused; without a name, TCP is selected, as by
/// the default name.
pub proof fn law_options_follow_names(name: Seq<char>)
    ensures
        selected_opt(Some(name)) is Ok <==> named_transport(name) is Ok,
        selected_opt(Some(name)) is Ok ==> selected_opt(Some(name))->Ok_0.transport
            == named_transport(name)->Ok_0,
        selected_opt(None) == Ok::<Opt, TransportParseError>(Opt { transport: Transport::Tcp }),
        selected_opt(None) == selected_opt(Some(DEFAULT_TRANSPORT@)),
{
}

} // verus!
