//! The lover account record, its byte layout, and the rules that change it.

use vstd::prelude::*;
use vstd::bytes::{spec_u64_from_le_bytes, spec_u64_to_le_bytes, lemma_auto_spec_u64_to_from_le_bytes};

use crate::{ACCOUNT_SPACE, MAX_SPECIAL, NAME};
use crate::borsh_io::{borsh_read_error, borsh_read_lover, borsh_write_lover};
use crate::error::{CustomError, ProgramError, ProgramErrorView};
use crate::name::string_to_u8;

verus! {

/// Number of leading non-zero entries of `numbers`: the special numbers a
/// lover has set, since a zero entry ends the list.
pub open spec fn leading_count(numbers: Seq<u64>) -> nat
    decreases numbers.len(),
{
    if numbers.len() == 0 {
        0
    } else if numbers[0] == 0 {
        0
    } else {
        1 + leading_count(numbers.drop_first())
    }
}

/// The contents of a lover record.
pub struct LoverModel {
    pub name: Seq<u8>,
    pub special_numbers: Seq<u64>,
    pub love: u8,
}

impl LoverModel {
    /// The record has a full name field and a full list of numbers.
    pub open spec fn wf(self) -> bool {
        &&& self.name.len() == NAME
        &&& self.special_numbers.len() == MAX_SPECIAL
    }

    /// How many special numbers are set.
    pub open spec fn count(self) -> nat {
        leading_count(self.special_numbers)
    }

    /// `number` is one of the special numbers that are set.
    pub open spec fn is_special(self, number: u64) -> bool {
        exists|i: int| 0 <= i < self.count() && self.special_numbers[i] == number
    }
}

/// A lover's account: a name, up to `MAX_SPECIAL` special numbers (the
/// list ends at the first zero) and a love counter that bounds how many
/// numbers may be set.
#[derive(Debug, Clone, Copy, PartialEq, Eq)]
pub struct Lover {
    pub name: [u8; NAME],
    pub special_numbers: [u64; MAX_SPECIAL],
    pub love: u8,
}

impl View for Lover {
    type V = LoverModel;

    open spec fn view(&self) -> LoverModel {
        LoverModel { name: self.name@, special_numbers: self.special_numbers@, love: self.love }
    }
}

/// The account bytes of the special numbers: each number as eight
/// little-endian bytes, in order.
pub open spec fn numbers_bytes(numbers: Seq<u64>) -> Seq<u8> {
    spec_u64_to_le_bytes(numbers[0]) + spec_u64_to_le_bytes(numbers[1]) + spec_u64_to_le_bytes(
        numbers[2],
    ) + spec_u64_to_le_bytes(numbers[3]) + spec_u64_to_le_bytes(numbers[4])
}

/// The account bytes of a record: the name field, the numbers, the love
/// counter.
pub open spec fn account_bytes(m: LoverModel) -> Seq<u8> {
    m.name + numbers_bytes(m.special_numbers) + seq![m.love]
}

/// The record that account bytes hold.
pub open spec fn account_model(data: Seq<u8>) -> LoverModel {
    LoverModel {
        name: data.subrange(0, NAME as int),
        special_numbers: Seq::new(
            MAX_SPECIAL as nat,
            |i: int| spec_u64_from_le_bytes(data.subrange(NAME + 8 * i, NAME + 8 * i + 8)),
        ),
        love: data[ACCOUNT_SPACE - 1],
    }
}

/// Writing a record and reading the bytes back gives the same record, and
/// every record takes exactly `ACCOUNT_SPACE` bytes.
pub proof fn lemma_account_bytes_roundtrip(m: LoverModel)
    requires
        m.wf(),
    ensures
        account_bytes(m).len() == ACCOUNT_SPACE,
        account_model(account_bytes(m)) == m,
{
    lemma_auto_spec_u64_to_from_le_bytes();
    let ns = m.special_numbers;
    let b = account_bytes(m);
    let t0 = spec_u64_to_le_bytes(ns[0]);
    let t1 = spec_u64_to_le_bytes(ns[1]);
    let t2 = spec_u64_to_le_bytes(ns[2]);
    let t3 = spec_u64_to_le_bytes(ns[3]);
    let t4 = spec_u64_to_le_bytes(ns[4]);
    assert(b =~= m.name + t0 + t1 + t2 + t3 + t4 + seq![m.love]);
    assert(b.subrange(0, 32) =~= m.name);
    assert(b.subrange(32, 40) =~= t0);
    assert(b.subrange(40, 48) =~= t1);
    assert(b.subrange(48, 56) =~= t2);
    assert(b.subrange(56, 64) =~= t3);
    assert(b.subrange(64, 72) =~= t4);
    let r = account_model(b);
    assert(r.special_numbers =~= ns) by {
        assert forall|i: int| 0 <= i < MAX_SPECIAL implies r.special_numbers[i] == ns[i] by {
            if i == 0 {
            } else if i == 1 {
            } else if i == 2 {
            } else if i == 3 {
            } else {
            }
        }
    }
}

/// Reading a record from account bytes and writing it back gives the same
/// bytes.
pub proof fn lemma_account_model_roundtrip(data: Seq<u8>)
    requires
        data.len() == ACCOUNT_SPACE,
    ensures
        account_model(data).wf(),
        account_bytes(account_model(data)) == data,
{
    lemma_auto_spec_u64_to_from_le_bytes();
    let m = account_model(data);
    assert(spec_u64_to_le_bytes(m.special_numbers[0]) =~= data.subrange(32, 40));
    assert(spec_u64_to_le_bytes(m.special_numbers[1]) =~= data.subrange(40, 48));
    assert(spec_u64_to_le_bytes(m.special_numbers[2]) =~= data.subrange(48, 56));
    assert(spec_u64_to_le_bytes(m.special_numbers[3]) =~= data.subrange(56, 64));
    assert(spec_u64_to_le_bytes(m.special_numbers[4]) =~= data.subrange(64, 72));
    assert(account_bytes(m) =~= data);
}

pub(crate) proof fn lemma_leading_count_at_least(numbers: Seq<u64>, i: int)
    requires
        0 <= i <= numbers.len(),
        forall|j: int| 0 <= j < i ==> numbers[j] != 0,
    ensures
        leading_count(numbers) >= i,
    decreases i,
{
    if i > 0 {
        lemma_leading_count_at_least(numbers.drop_first(), i - 1);
    }
}

proof fn lemma_leading_count_is(numbers: Seq<u64>, i: int)
    requires
        0 <= i <= numbers.len(),
        forall|j: int| 0 <= j < i ==> numbers[j] != 0,
        i == numbers.len() || numbers[i] == 0,
    ensures
        leading_count(numbers) == i,
    decreases i,
{
    if i > 0 {
        lemma_leading_count_is(numbers.drop_first(), i - 1);
    }
}

/// The count of set numbers is the position of the first zero entry (or
/// the length when there is none): every entry before it is non-zero.
pub proof fn lemma_count_is_first_zero(numbers: Seq<u64>)
    ensures
        leading_count(numbers) <= numbers.len(),
        forall|j: int| 0 <= j < leading_count(numbers) ==> numbers[j] != 0,
        leading_count(numbers) < numbers.len() ==> numbers[leading_count(numbers) as int] == 0,
    decreases numbers.len(),
{
    if numbers.len() > 0 && numbers[0] != 0 {
        let rest = numbers.drop_first();
        lemma_count_is_first_zero(rest);
        assert forall|j: int| 0 <= j < leading_count(numbers) implies numbers[j] != 0 by {
            if j > 0 {
                assert(numbers[j] == rest[j - 1]);
            }
        }
        if leading_count(numbers) < numbers.len() {
            assert(numbers[leading_count(numbers) as int] == rest[leading_count(rest) as int]);
        }
    }
}

/// A number is special exactly when it equals an entry that has only
/// non-zero entries before it (and is non-zero itself): any of the numbers
/// set, not just the last one. Zero is never special.
pub proof fn lemma_is_special_iff(m: LoverModel, number: u64)
    ensures
        m.is_special(number) <==> exists|i: int|
            #![trigger m.special_numbers[i]]
            0 <= i < m.special_numbers.len() && m.special_numbers[i] == number && forall|j: int|
                0 <= j <= i ==> m.special_numbers[j] != 0,
        !m.is_special(0),
{
    lemma_count_is_first_zero(m.special_numbers);
    if m.is_special(number) {
        let i = choose|i: int| 0 <= i < m.count() && m.special_numbers[i] == number;
        assert(forall|j: int| 0 <= j <= i ==> m.special_numbers[j] != 0);
        assert(m.special_numbers[i] == number);
    }
    if exists|i: int|
        #![trigger m.special_numbers[i]]
        0 <= i < m.special_numbers.len() && m.special_numbers[i] == number && forall|j: int|
            0 <= j <= i ==> m.special_numbers[j] != 0 {
        let i = choose|i: int|
            #![trigger m.special_numbers[i]]
            0 <= i < m.special_numbers.len() && m.special_numbers[i] == number && forall|j: int|
                0 <= j <= i ==> m.special_numbers[j] != 0;
        lemma_leading_count_at_least(m.special_numbers, i + 1);
        assert(0 <= i < m.count() && m.special_numbers[i] == number);
    }
}

impl Lover {
    /// A lover with an empty name, no special numbers and no love.
    pub fn new() -> (l: Self)
        ensures
            l@.name == Seq::new(NAME as nat, |i: int| 0u8),
            l@.special_numbers == Seq::new(MAX_SPECIAL as nat, |i: int| 0u64),
            l.love == 0,
    {
        proof {
            reveal_strlit("");
        }
        let name = string_to_u8("");
        let l = Self { name, special_numbers: [0, 0, 0, 0, 0], love: 0 };
        assert(l@.name =~= Seq::new(NAME as nat, |i: int| 0u8));
        assert(l@.special_numbers =~= Seq::new(MAX_SPECIAL as nat, |i: int| 0u64));
        l
    }

    /// How many special numbers are set: the entries before the first zero.
    pub fn count(&self) -> (c: u8)
        ensures
            c as nat == self@.count(),
    {
        let mut count: u8 = 0;
        let mut i: usize = 0;
        while i < MAX_SPECIAL && self.special_numbers[i] != 0
            invariant
                i <= MAX_SPECIAL,
                count == i,
                forall|j: int| 0 <= j < i ==> self.special_numbers@[j] != 0,
            decreases MAX_SPECIAL - i,
        {
            count = count + 1;
            i = i + 1;
        }
        proof {
            lemma_leading_count_is(self.special_numbers@, i as int);
        }
        count
    }

    /// Whether `number` is one of the special numbers that are set.
    pub fn is_special(&self, number: u64) -> (r: bool)
        ensures
            r == self@.is_special(number),
    {
        let mut i: usize = 0;
        while i < MAX_SPECIAL && self.special_numbers[i] != 0
            invariant
                i <= MAX_SPECIAL,
                forall|j: int|
                    0 <= j < i ==> self.special_numbers@[j] != 0 && self.special_numbers@[j]
                        != number,
            decreases MAX_SPECIAL - i,
        {
            if self.special_numbers[i] == number {
                proof {
                    lemma_leading_count_at_least(self.special_numbers@, i as int + 1);
                    assert(self@.special_numbers[i as int] == number);
                }
                return true;
            }
            i = i + 1;
        }
        proof {
            lemma_leading_count_is(self.special_numbers@, i as int);
        }
        false
    }

    /// Adds `new_number` in the slot given by the love counter, provided
    /// it is not already a special number and no more numbers are set than
    /// the love counter allows. Fails with `AlreadySpecial` first, then with
    /// `NotEnoughLove`, leaving the lover unchanged.
    pub fn try_set_special_number(&mut self, new_number: u64) -> (r: Result<(), CustomError>)
        requires
            old(self).love < MAX_SPECIAL || old(self)@.is_special(new_number),
        ensures
            old(self)@.is_special(new_number) ==> r == Err::<(), CustomError>(
                CustomError::AlreadySpecial,
            ) && *final(self) == *old(self),
            !old(self)@.is_special(new_number) && old(self)@.count() > old(self).love ==> r
                == Err::<(), CustomError>(CustomError::NotEnoughLove) && *final(self) == *old(
                self,
            ),
            !old(self)@.is_special(new_number) && old(self)@.count() <= old(self).love ==> r
                == Ok::<(), CustomError>(()) && final(self)@ == (LoverModel {
                special_numbers: old(self)@.special_numbers.update(old(self).love as int, new_number),
                ..old(self)@
            }),
    {
        let ghost before = *self;
        let mut count: u8 = 0;
        let mut i: usize = 0;
        while i < MAX_SPECIAL && self.special_numbers[i] != 0
            invariant
                *self == before,
                i <= MAX_SPECIAL,
                count == i,
                forall|j: int|
                    0 <= j < i ==> self.special_numbers@[j] != 0 && self.special_numbers@[j]
                        != new_number,
            decreases MAX_SPECIAL - i,
        {
            if self.special_numbers[i] == new_number {
                proof {
                    lemma_leading_count_at_least(self.special_numbers@, i as int + 1);
                }
                return Err(CustomError::AlreadySpecial);
            }
            count = count + 1;
            i = i + 1;
        }
        proof {
            lemma_leading_count_is(self.special_numbers@, i as int);
        }
        if count <= self.love {
            let slot: usize = self.love as usize;
            self.special_numbers[slot] = new_number;
            Ok(())
        } else {
            Err(CustomError::NotEnoughLove)
        }
    }

    /// Raises the love counter by one, unless it has reached
    /// `MAX_SPECIAL - 1`, in which case it fails with `TooMuchLove` and
    /// leaves the lover unchanged.
    pub fn try_increase_love(&mut self) -> (r: Result<(), CustomError>)
        ensures
            old(self).love < MAX_SPECIAL - 1 ==> r == Ok::<(), CustomError>(()) && final(self)@
                == (LoverModel { love: (old(self).love + 1) as u8, ..old(self)@ }),
            old(self).love >= MAX_SPECIAL - 1 ==> r == Err::<(), CustomError>(
                CustomError::TooMuchLove,
            ) && *final(self) == *old(self),
    {
        if (self.love as usize) < MAX_SPECIAL - 1 {
            self.love = self.love + 1;
            Ok(())
        } else {
            Err(CustomError::TooMuchLove)
        }
    }

    /// Reads a lover from account data. Succeeds exactly on data of
    /// `ACCOUNT_SPACE` bytes; otherwise reports the reader's message.
    pub fn from_account_data(data: &[u8]) -> (r: Result<Lover, ProgramError>)
        ensures
            r is Ok <==> data@.len() == ACCOUNT_SPACE,
            r matches Ok(l) ==> l@ == account_model(data@),
            r matches Err(e) ==> e@ == ProgramErrorView::BorshIoError(borsh_read_error(data@)),
    {
        match borsh_read_lover(data) {
            Ok(l) => Ok(l),
            Err(m) => Err(ProgramError::BorshIoError(m)),
        }
    }

    /// The account data that holds this lover.
    pub fn to_account_data(&self) -> (r: Result<Vec<u8>, ProgramError>)
        ensures
            r matches Ok(bytes) && bytes@ == account_bytes(self@),
    {
        match borsh_write_lover(self) {
            Ok(bytes) => Ok(bytes),
            Err(m) => Err(ProgramError::BorshIoError(m)),
        }
    }
}

} // verus!
