//! TCP options: end of list, no-operation and maximum segment size.
use crate::error::{after, DecodeError};
use crate::wire::{be16, from_be16, lemma_padded_len, pad_in_place, pad_to_word, push_be16, read_be16};
use vstd::prelude::*;
use vstd::slice::slice_subrange;

verus! {

/// One TCP option.
#[derive(Debug, PartialEq, Clone, Copy)]
pub enum TcpOption {
    /// End of option list (kind 0).
    EndOfOptionList,
    /// No operation (kind 1), used for alignment.
    NoOperation,
    /// Maximum segment size (kind 2, length 4).
    MaximumSegmentSize(u16),
}

/// The bytes of one option.
pub open spec fn tcp_option_bytes(o: TcpOption) -> Seq<u8> {
    match o {
        TcpOption::EndOfOptionList => seq![0u8],
        TcpOption::NoOperation => seq![1u8],
        TcpOption::MaximumSegmentSize(mss) => seq![2u8, 4u8] + be16(mss),
    }
}

/// The option at the start of `b`, with the number of bytes it takes.
pub open spec fn tcp_option_decode(b: Seq<u8>) -> Result<(TcpOption, usize), DecodeError> {
    if b.len() == 0 {
        Err(DecodeError::InsufficientLength)
    } else if b[0] == 0 {
        Ok((TcpOption::EndOfOptionList, 1))
    } else if b[0] == 1 {
        Ok((TcpOption::NoOperation, 1))
    } else if b[0] == 2 {
        if b.len() < 4 || b[1] != 4 {
            Err(DecodeError::TruncatedOption)
        } else {
            Ok((TcpOption::MaximumSegmentSize(from_be16(b[2], b[3])), 4))
        }
    } else {
        Err(DecodeError::UnknownOption)
    }
}

/// The options one after the other, without padding.
pub open spec fn tcp_options_raw(s: Seq<TcpOption>) -> Seq<u8>
    decreases s.len(),
{
    if s.len() == 0 {
        Seq::empty()
    } else {
        tcp_options_raw(s.drop_last()) + tcp_option_bytes(s.last())
    }
}

/// The options on the wire: one after the other, then zero bytes up to a
/// multiple of four.
pub open spec fn tcp_options_bytes(s: Seq<TcpOption>) -> Seq<u8> {
    pad_to_word(tcp_options_raw(s))
}

/// The number of bytes the options take, without padding.
pub open spec fn tcp_options_len(s: Seq<TcpOption>) -> nat {
    tcp_options_raw(s).len()
}

/// The number of 32-bit words the padded options take.
pub open spec fn tcp_options_words(s: Seq<TcpOption>) -> nat {
    (tcp_options_len(s) + 3) / 4
}

/// The options that `b` holds. A zero byte where an option would start is
/// padding and ends the list.
pub open spec fn tcp_options_parse(b: Seq<u8>) -> Result<Seq<TcpOption>, DecodeError>
    decreases b.len(),
{
    if b.len() == 0 || b[0] == 0 {
        Ok(Seq::empty())
    } else if b[0] == 1 {
        after(seq![TcpOption::NoOperation], tcp_options_parse(b.subrange(1, b.len() as int)))
    } else if b[0] == 2 {
        if b.len() < 4 || b[1] != 4 {
            Err(DecodeError::TruncatedOption)
        } else {
            after(
                seq![TcpOption::MaximumSegmentSize(from_be16(b[2], b[3]))],
                tcp_options_parse(b.subrange(4, b.len() as int)),
            )
        }
    } else {
        Err(DecodeError::UnknownOption)
    }
}

/// An ordered list of TCP options.
#[derive(Debug, PartialEq)]
pub struct TcpOptions {
    pub options: Vec<TcpOption>,
}

proof fn lemma_raw_push(s: Seq<TcpOption>, o: TcpOption)
    ensures
        tcp_options_raw(s.push(o)) == tcp_options_raw(s) + tcp_option_bytes(o),
{
    assert(s.push(o).drop_last() =~= s);
}

proof fn lemma_after_push<T>(acc: Seq<T>, o: T, r: Result<Seq<T>, DecodeError>)
    ensures
        after(acc, after(seq![o], r)) == after(acc.push(o), r),
{
    match r {
        Ok(s) => {
            assert(acc + (seq![o] + s) =~= acc.push(o) + s);
        },
        Err(_) => {},
    }
}

impl TcpOption {
    /// The kind byte of this option.
    pub fn kind(&self) -> (r: u8)
        ensures
            r == tcp_option_bytes(*self)[0],
    {
        match self {
            TcpOption::EndOfOptionList => 0,
            TcpOption::NoOperation => 1,
            TcpOption::MaximumSegmentSize(_) => 2,
        }
    }

    /// The number of bytes this option takes, kind and length included.
    pub fn length(&self) -> (r: u8)
        ensures
            r == tcp_option_bytes(*self).len(),
    {
        match self {
            TcpOption::EndOfOptionList => 1,
            TcpOption::NoOperation => 1,
            TcpOption::MaximumSegmentSize(_) => 4,
        }
    }

    /// The bytes of this option.
    pub fn to_bytes(&self) -> (r: Vec<u8>)
        ensures
            r@ == tcp_option_bytes(*self),
    {
        match self {
            TcpOption::EndOfOptionList => {
                let r = vec![0u8];
                assert(r@ =~= tcp_option_bytes(*self));
                r
            },
            TcpOption::NoOperation => {
                let r = vec![1u8];
                assert(r@ =~= tcp_option_bytes(*self));
                r
            },
            TcpOption::MaximumSegmentSize(mss) => {
                let mut bytes = vec![2u8, 4u8];
                push_be16(&mut bytes, *mss);
                assert(bytes@ =~= tcp_option_bytes(*self));
                bytes
            },
        }
    }

    /// The option at the start of `bytes`, with the number of bytes it takes.
    pub fn from_bytes(bytes: &[u8]) -> (r: Result<(TcpOption, usize), DecodeError>)
        ensures
            r == tcp_option_decode(bytes@),
    {
        if bytes.len() == 0 {
            return Err(DecodeError::InsufficientLength);
        }
        match bytes[0] {
            0 => Ok((TcpOption::EndOfOptionList, 1)),
            1 => Ok((TcpOption::NoOperation, 1)),
            2 => {
                if bytes.len() < 4 {
                    return Err(DecodeError::TruncatedOption);
                }
                if bytes[1] != 4 {
                    return Err(DecodeError::TruncatedOption);
                }
                let mss = read_be16(bytes, 2);
                Ok((TcpOption::MaximumSegmentSize(mss), 4))
            },
            _ => Err(DecodeError::UnknownOption),
        }
    }
}

impl TcpOptions {
    /// No options.
    pub fn new() -> (r: Self)
        ensures
            r.options@ == Seq::<TcpOption>::empty(),
    {
        TcpOptions { options: Vec::new() }
    }

    /// Appends `option`; any order and any repetition is accepted.
    pub fn add(&mut self, option: TcpOption)
        ensures
            final(self).options@ == old(self).options@.push(option),
            tcp_options_raw(final(self).options@) == tcp_options_raw(old(self).options@)
                + tcp_option_bytes(option),
    {
        proof {
            lemma_raw_push(self.options@, option);
        }
        self.options.push(option);
    }

    /// The number of bytes the options take, without padding.
    pub fn total_length(&self) -> (r: usize)
        requires
            tcp_options_len(self.options@) <= usize::MAX,
        ensures
            r == tcp_options_len(self.options@),
    {
        let mut total: usize = 0;
        let mut i: usize = 0;
        while i < self.options.len()
            invariant
                i <= self.options@.len(),
                tcp_options_len(self.options@) <= usize::MAX,
                total == tcp_options_len(self.options@.subrange(0, i as int)),
            decreases self.options@.len() - i,
        {
            proof {
                let s = self.options@;
                lemma_raw_push(s.subrange(0, i as int), s[i as int]);
                assert(s.subrange(0, i as int).push(s[i as int]) =~= s.subrange(0, i + 1));
                lemma_raw_prefix_len(s, i + 1);
            }
            total = total + self.options[i].length() as usize;
            i = i + 1;
        }
        assert(self.options@.subrange(0, i as int) =~= self.options@);
        total
    }

    /// The number of 32-bit words the padded options take; more than 255
    /// wraps around.
    pub fn words_needed(&self) -> (r: u8)
        requires
            tcp_options_len(self.options@) + 3 <= usize::MAX,
        ensures
            r == tcp_options_words(self.options@) as u8,
    {
        let byte_length = self.total_length();
        ((byte_length + 3) / 4) as u8
    }

    /// The options on the wire, padded with zero bytes to a multiple of four.
    pub fn to_bytes(&self) -> (r: Vec<u8>)
        ensures
            r@ == tcp_options_bytes(self.options@),
            r@.len() == 4 * tcp_options_words(self.options@),
    {
        let mut bytes: Vec<u8> = Vec::new();
        let mut i: usize = 0;
        while i < self.options.len()
            invariant
                i <= self.options@.len(),
                bytes@ == tcp_options_raw(self.options@.subrange(0, i as int)),
            decreases self.options@.len() - i,
        {
            proof {
                let s = self.options@;
                lemma_raw_push(s.subrange(0, i as int), s[i as int]);
                assert(s.subrange(0, i as int).push(s[i as int]) =~= s.subrange(0, i + 1));
            }
            let mut one = self.options[i].to_bytes();
            bytes.append(&mut one);
            i = i + 1;
        }
        assert(self.options@.subrange(0, i as int) =~= self.options@);
        proof {
            lemma_padded_len(bytes@.len());
        }
        pad_in_place(&mut bytes);
        bytes
    }

    /// The options that `bytes` holds. A zero byte where an option would
    /// start is padding and ends the list; so does an end-of-list option.
    pub fn from_bytes(bytes: &[u8]) -> (r: Result<Self, DecodeError>)
        ensures
            match r {
                Ok(o) => tcp_options_parse(bytes@) == Ok::<_, DecodeError>(o.options@),
                Err(e) => tcp_options_parse(bytes@) == Err::<Seq<TcpOption>, _>(e),
            },
    {
        let mut options: Vec<TcpOption> = Vec::new();
        let mut offset: usize = 0;
        proof {
            assert(bytes@.subrange(0, bytes@.len() as int) =~= bytes@);
            if let Ok(s) = tcp_options_parse(bytes@) {
                assert(Seq::<TcpOption>::empty() + s =~= s);
            }
        }
        while offset < bytes.len() && bytes[offset] != 0
            invariant
                offset <= bytes@.len(),
                tcp_options_parse(bytes@) == after(
                    options@,
                    tcp_options_parse(bytes@.subrange(offset as int, bytes@.len() as int)),
                ),
            decreases bytes@.len() - offset,
        {
            let rest = slice_subrange(bytes, offset, bytes.len());
            match TcpOption::from_bytes(rest) {
                Err(e) => {
                    return Err(e);
                },
                Ok((option, consumed)) => {
                    proof {
                        let b = rest@;
                        assert(b.subrange(consumed as int, b.len() as int) =~= bytes@.subrange(
                            offset + consumed,
                            bytes@.len() as int,
                        ));
                        lemma_after_push(options@, option, tcp_options_parse(
                            b.subrange(consumed as int, b.len() as int),
                        ));
                    }
                    options.push(option);
                    offset = offset + consumed;
                    if let TcpOption::EndOfOptionList = option {
                        return Ok(TcpOptions { options });
                    }
                },
            }
        }
        assert(options@ + Seq::<TcpOption>::empty() =~= options@);
        Ok(TcpOptions { options })
    }
}

proof fn lemma_raw_prefix_len(s: Seq<TcpOption>, i: int)
    requires
        0 <= i <= s.len(),
    ensures
        tcp_options_len(s.subrange(0, i)) <= tcp_options_len(s),
    decreases s.len() - i,
{
    if i < s.len() {
        lemma_raw_prefix_len(s, i + 1);
        lemma_raw_push(s.subrange(0, i), s[i]);
        assert(s.subrange(0, i).push(s[i]) =~= s.subrange(0, i + 1));
    } else {
        assert(s.subrange(0, i) =~= s);
    }
}

impl Default for TcpOptions {
    fn default() -> (r: Self)
        ensures
            r.options@ == Seq::<TcpOption>::empty(),
    {
        Self::new()
    }
}

} // verus!
