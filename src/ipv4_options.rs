//! IPv4 options: end of list and no-operation, each a single byte.
use crate::error::{after, DecodeError};
use crate::wire::{lemma_padded_len, pad_in_place, pad_to_word, padding_len};
use vstd::prelude::*;
use vstd::slice::slice_subrange;

verus! {

/// One IPv4 option.
#[derive(Debug, PartialEq, Clone, Copy)]
pub enum Ipv4Option {
    /// End of option list (type 0).
    EndOfOptionsList,
    /// No operation (type 1), used for alignment.
    NoOperation,
}

/// The type byte of an option, which is all of its encoding.
pub open spec fn ipv4_option_code(o: Ipv4Option) -> u8 {
    match o {
        Ipv4Option::EndOfOptionsList => 0,
        Ipv4Option::NoOperation => 1,
    }
}

/// The option at the start of `b`, with the number of bytes it takes.
pub open spec fn ipv4_option_decode(b: Seq<u8>) -> Result<(Ipv4Option, usize), DecodeError> {
    if b.len() == 0 {
        Err(DecodeError::InsufficientLength)
    } else if b[0] == 0 {
        Ok((Ipv4Option::EndOfOptionsList, 1))
    } else if b[0] == 1 {
        Ok((Ipv4Option::NoOperation, 1))
    } else {
        Err(DecodeError::UnknownOption)
    }
}

/// The options one after the other, without padding.
pub open spec fn ipv4_options_raw(s: Seq<Ipv4Option>) -> Seq<u8> {
    Seq::new(s.len(), |i: int| ipv4_option_code(s[i]))
}

/// The options on the wire: one byte each, then zero bytes up to a multiple
/// of four.
pub open spec fn ipv4_options_bytes(s: Seq<Ipv4Option>) -> Seq<u8> {
    pad_to_word(ipv4_options_raw(s))
}

/// The number of bytes the options take, padding included.
pub open spec fn ipv4_options_total(s: Seq<Ipv4Option>) -> nat {
    s.len() + padding_len(s.len())
}

/// The options that `b` holds. An end-of-list option ends the list; what
/// follows it is padding and is not read.
pub open spec fn ipv4_options_parse(b: Seq<u8>) -> Result<Seq<Ipv4Option>, DecodeError>
    decreases b.len(),
{
    if b.len() == 0 {
        Ok(Seq::empty())
    } else if b[0] == 0 {
        Ok(seq![Ipv4Option::EndOfOptionsList])
    } else if b[0] == 1 {
        after(seq![Ipv4Option::NoOperation], ipv4_options_parse(b.subrange(1, b.len() as int)))
    } else {
        Err(DecodeError::UnknownOption)
    }
}

/// An ordered list of IPv4 options.
#[derive(Debug, PartialEq)]
pub struct Ipv4Options {
    pub options: Vec<Ipv4Option>,
}

impl Ipv4Option {
    /// The type byte of this option.
    pub fn option_type(&self) -> (r: u8)
        ensures
            r == ipv4_option_code(*self),
    {
        match self {
            Ipv4Option::EndOfOptionsList => 0,
            Ipv4Option::NoOperation => 1,
        }
    }

    /// The number of bytes this option takes.
    pub fn length(&self) -> (r: usize)
        ensures
            r == 1,
    {
        match self {
            Ipv4Option::EndOfOptionsList => 1,
            Ipv4Option::NoOperation => 1,
        }
    }

    /// The bytes of this option.
    pub fn to_bytes(&self) -> (r: Vec<u8>)
        ensures
            r@ == seq![ipv4_option_code(*self)],
    {
        let r = match self {
            Ipv4Option::EndOfOptionsList => vec![0u8],
            Ipv4Option::NoOperation => vec![1u8],
        };
        assert(r@ =~= seq![ipv4_option_code(*self)]);
        r
    }

    /// The option at the start of `bytes`, with the number of bytes it takes.
    pub fn from_bytes(bytes: &[u8]) -> (r: Result<(Self, usize), DecodeError>)
        ensures
            r == ipv4_option_decode(bytes@),
    {
        if bytes.len() == 0 {
            return Err(DecodeError::InsufficientLength);
        }
        match bytes[0] {
            0 => Ok((Ipv4Option::EndOfOptionsList, 1)),
            1 => Ok((Ipv4Option::NoOperation, 1)),
            _ => Err(DecodeError::UnknownOption),
        }
    }
}

impl Ipv4Options {
    /// No options.
    pub fn new() -> (r: Self)
        ensures
            r.options@ == Seq::<Ipv4Option>::empty(),
    {
        Ipv4Options { options: Vec::new() }
    }

    /// Appends `option`; any order and any repetition is accepted.
    pub fn add(&mut self, option: Ipv4Option)
        ensures
            final(self).options@ == old(self).options@.push(option),
    {
        self.options.push(option);
    }

    /// The number of bytes the options take, rounded up to a multiple of
    /// four.
    pub fn total_length(&self) -> (r: usize)
        requires
            self.options@.len() + 3 <= usize::MAX,
        ensures
            r == ipv4_options_total(self.options@),
    {
        let mut length: usize = 0;
        let mut i: usize = 0;
        while i < self.options.len()
            invariant
                i <= self.options@.len(),
                length == i,
            decreases self.options@.len() - i,
        {
            length = length + self.options[i].length();
            i = i + 1;
        }
        let remainder = length % 4;
        if remainder != 0 {
            length = length + (4 - remainder);
        }
        length
    }

    /// The number of 32-bit words the padded options take; more than 255
    /// wraps around.
    pub fn words_needed(&self) -> (r: u8)
        requires
            self.options@.len() + 3 <= usize::MAX,
        ensures
            r == (ipv4_options_total(self.options@) / 4) as u8,
    {
        let total_bytes = self.total_length();
        (total_bytes / 4) as u8
    }

    /// The options on the wire, padded with zero bytes to a multiple of four.
    pub fn to_bytes(&self) -> (r: Vec<u8>)
        ensures
            r@ == ipv4_options_bytes(self.options@),
            r@.len() == ipv4_options_total(self.options@),
    {
        let mut bytes: Vec<u8> = Vec::new();
        let mut i: usize = 0;
        while i < self.options.len()
            invariant
                i <= self.options@.len(),
                bytes@ == ipv4_options_raw(self.options@.subrange(0, i as int)),
            decreases self.options@.len() - i,
        {
            let mut one = self.options[i].to_bytes();
            bytes.append(&mut one);
            i = i + 1;
            assert(bytes@ =~= ipv4_options_raw(self.options@.subrange(0, i as int)));
        }
        assert(self.options@.subrange(0, i as int) =~= self.options@);
        proof {
            lemma_padded_len(bytes@.len());
        }
        pad_in_place(&mut bytes);
        bytes
    }

    /// The options that `bytes` holds. An end-of-list option ends the list;
    /// what follows it is padding and is not read.
    pub fn from_bytes(bytes: &[u8]) -> (r: Result<Self, DecodeError>)
        ensures
            match r {
                Ok(o) => ipv4_options_parse(bytes@) == Ok::<_, DecodeError>(o.options@),
                Err(e) => ipv4_options_parse(bytes@) == Err::<Seq<Ipv4Option>, _>(e),
            },
    {
        let mut options: Vec<Ipv4Option> = Vec::new();
        let mut pos: usize = 0;
        proof {
            assert(bytes@.subrange(0, bytes@.len() as int) =~= bytes@);
            if let Ok(s) = ipv4_options_parse(bytes@) {
                assert(Seq::<Ipv4Option>::empty() + s =~= s);
            }
        }
        while pos < bytes.len()
            invariant
                pos <= bytes@.len(),
                ipv4_options_parse(bytes@) == after(
                    options@,
                    ipv4_options_parse(bytes@.subrange(pos as int, bytes@.len() as int)),
                ),
            decreases bytes@.len() - pos,
        {
            let rest = slice_subrange(bytes, pos, bytes.len());
            match Ipv4Option::from_bytes(rest) {
                Err(e) => {
                    return Err(e);
                },
                Ok((option, consumed)) => {
                    proof {
                        let b = rest@;
                        let tail = b.subrange(consumed as int, b.len() as int);
                        assert(tail =~= bytes@.subrange(pos + consumed, bytes@.len() as int));
                        match ipv4_options_parse(tail) {
                            Ok(s) => {
                                assert(options@ + (seq![option] + s) =~= options@.push(option)
                                    + s);
                            },
                            Err(_) => {},
                        }
                        assert(options@ + seq![option] =~= options@.push(option));
                    }
                    options.push(option);
                    pos = pos + consumed;
                    if let Ipv4Option::EndOfOptionsList = option {
                        return Ok(Ipv4Options { options });
                    }
                },
            }
        }
        assert(options@ + Seq::<Ipv4Option>::empty() =~= options@);
        Ok(Ipv4Options { options })
    }
}

impl Default for Ipv4Options {
    fn default() -> (r: Self)
        ensures
            r.options@ == Seq::<Ipv4Option>::empty(),
    {
        Self::new()
    }
}

} // verus!
