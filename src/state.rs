use vstd::prelude::*;
use crate::codec::{Key, u64_le, u64_from_le, lemma_u64_le_round_trip, push_u64_le, read_u64_le, read_key, push_key};
use crate::error::{FundraiserError, ProcessError};

verus! {

/// Seconds in one whole day of the duration gate.
pub const SECONDS_PER_DAY: i64 = 86400;

/// Whole days from `start` to `now`, truncated toward zero.
pub open spec fn elapsed_days(start: i64, now: i64) -> int {
    if now >= start {
        (now - start) / (SECONDS_PER_DAY as int)
    } else {
        -((start - now) / (SECONDS_PER_DAY as int))
    }
}

/// Whole days from `start` to `now`, computed without overflow.
pub fn compute_elapsed_days(start: i64, now: i64) -> (r: i128)
    ensures
        r == elapsed_days(start, now),
{
    let d: i128 = now as i128 - start as i128;
    if d >= 0 {
        d / (SECONDS_PER_DAY as i128)
    } else {
        let p: i128 = -d;
        -(p / (SECONDS_PER_DAY as i128))
    }
}

/// The campaign record.
#[derive(Debug, Clone, Copy)]
pub struct Fundraiser {
    pub maker: Key,
    pub mint_to_raise: Key,
    pub amount_to_raise: u64,
    pub current_amount: u64,
    pub time_started: i64,
    pub duration: u8,
    pub bump: u8,
}

/// The campaign record with its addresses as byte sequences.
pub struct FundraiserView {
    pub maker: Seq<u8>,
    pub mint_to_raise: Seq<u8>,
    pub amount_to_raise: u64,
    pub current_amount: u64,
    pub time_started: i64,
    pub duration: u8,
    pub bump: u8,
}

impl View for Fundraiser {
    type V = FundraiserView;

    open spec fn view(&self) -> FundraiserView {
        FundraiserView {
            maker: self.maker@,
            mint_to_raise: self.mint_to_raise@,
            amount_to_raise: self.amount_to_raise,
            current_amount: self.current_amount,
            time_started: self.time_started,
            duration: self.duration,
            bump: self.bump,
        }
    }
}

/// Size of the campaign record's storage: its fields fill the first 90 bytes,
/// the rest stays zero.
pub const FUNDRAISER_LEN: usize = 96;

/// Bytes of the campaign record in its storage layout.
pub open spec fn fundraiser_bytes(f: FundraiserView) -> Seq<u8> {
    f.maker + f.mint_to_raise + u64_le(f.amount_to_raise) + u64_le(f.current_amount) + u64_le(
        f.time_started as u64,
    ) + seq![f.duration, f.bump] + Seq::new(6, |i: int| 0u8)
}

/// The campaign record that storage bytes hold.
pub open spec fn fundraiser_from_bytes(b: Seq<u8>) -> FundraiserView {
    FundraiserView {
        maker: b.subrange(0, 32),
        mint_to_raise: b.subrange(32, 64),
        amount_to_raise: u64_from_le(b, 64),
        current_amount: u64_from_le(b, 72),
        time_started: u64_from_le(b, 80) as i64,
        duration: b[88],
        bump: b[89],
    }
}

impl FundraiserView {
    /// Whether the campaign's window is over at time `now`.
    pub open spec fn has_ended(self, now: i64) -> bool {
        elapsed_days(self.time_started, now) >= self.duration as int
    }
}

impl Fundraiser {
    /// A fresh campaign record.
    pub fn init(
        maker: &Key,
        mint_to_raise: &Key,
        amount_to_raise: u64,
        current_amount: u64,
        time_started: i64,
        duration: u8,
        bump: u8,
    ) -> (r: Fundraiser)
        ensures
            r@ == (FundraiserView {
                maker: maker@,
                mint_to_raise: mint_to_raise@,
                amount_to_raise,
                current_amount,
                time_started,
                duration,
                bump,
            }),
    {
        Fundraiser {
            maker: *maker,
            mint_to_raise: *mint_to_raise,
            amount_to_raise,
            current_amount,
            time_started,
            duration,
            bump,
        }
    }

    /// Records a contribution of `amount_to_increase` at time `current_time`,
    /// refused once the campaign's window is over.
    pub fn increase_amount(&mut self, amount_to_increase: u64, current_time: i64) -> (r: Result<
        (),
        ProcessError,
    >)
        ensures
            old(self)@.has_ended(current_time) ==> r == Err::<(), ProcessError>(
                ProcessError::Custom(FundraiserError::FundraiserEnded),
            ) && *final(self) == *old(self),
            !old(self)@.has_ended(current_time) && old(self).current_amount + amount_to_increase
                > u64::MAX ==> r == Err::<(), ProcessError>(ProcessError::ArithmeticOverflow)
                && *final(self) == *old(self),
            r is Ok <==> !old(self)@.has_ended(current_time) && old(self).current_amount
                + amount_to_increase <= u64::MAX,
            r is Ok ==> final(self)@ == (FundraiserView {
                current_amount: (old(self).current_amount + amount_to_increase) as u64,
                ..old(self)@
            }),
    {
        let elapsed = compute_elapsed_days(self.time_started, current_time);
        if elapsed >= self.duration as i128 {
            return Err(ProcessError::Custom(FundraiserError::FundraiserEnded));
        }
        match self.current_amount.checked_add(amount_to_increase) {
            Some(v) => {
                self.current_amount = v;
                Ok(())
            },
            None => Err(ProcessError::ArithmeticOverflow),
        }
    }

    /// The record's storage bytes.
    pub fn to_bytes(&self) -> (r: Vec<u8>)
        ensures
            r@ == fundraiser_bytes(self@),
            r@.len() == FUNDRAISER_LEN,
    {
        let mut out: Vec<u8> = Vec::new();
        push_key(&mut out, &self.maker);
        push_key(&mut out, &self.mint_to_raise);
        push_u64_le(&mut out, self.amount_to_raise);
        push_u64_le(&mut out, self.current_amount);
        push_u64_le(&mut out, self.time_started as u64);
        out.push(self.duration);
        out.push(self.bump);
        let mut i: usize = 0;
        let ghost pre = out@;
        while i < 6
            invariant
                i <= 6,
                out@ == pre + Seq::new(i as nat, |j: int| 0u8),
            decreases 6 - i,
        {
            out.push(0u8);
            i = i + 1;
            assert(out@ =~= pre + Seq::new(i as nat, |j: int| 0u8));
        }
        assert(out@ =~= fundraiser_bytes(self@));
        out
    }

    /// Reads a record from its storage bytes.
    pub fn try_from_slice(data: &[u8]) -> (r: Result<Fundraiser, ProcessError>)
        ensures
            r is Ok <==> data@.len() == FUNDRAISER_LEN,
            r is Err ==> r == Err::<Fundraiser, ProcessError>(ProcessError::InvalidAccountData),
            r is Ok ==> r->Ok_0@ == fundraiser_from_bytes(data@),
    {
        if data.len() != FUNDRAISER_LEN {
            return Err(ProcessError::InvalidAccountData);
        }
        Ok(Fundraiser {
            maker: read_key(data, 0),
            mint_to_raise: read_key(data, 32),
            amount_to_raise: read_u64_le(data, 64),
            current_amount: read_u64_le(data, 72),
            time_started: read_u64_le(data, 80) as i64,
            duration: data[88],
            bump: data[89],
        })
    }
}

/// Reading back the bytes written for a campaign record gives the record.
pub proof fn lemma_fundraiser_round_trip(f: FundraiserView)
    requires
        f.maker.len() == 32,
        f.mint_to_raise.len() == 32,
    ensures
        fundraiser_bytes(f).len() == FUNDRAISER_LEN,
        fundraiser_from_bytes(fundraiser_bytes(f)) == f,
{
    let b = fundraiser_bytes(f);
    lemma_u64_le_round_trip(f.amount_to_raise);
    lemma_u64_le_round_trip(f.current_amount);
    lemma_u64_le_round_trip(f.time_started as u64);
    assert(b.subrange(0, 32) =~= f.maker);
    assert(b.subrange(32, 64) =~= f.mint_to_raise);
    assert(u64_from_le(b, 64) == u64_from_le(u64_le(f.amount_to_raise), 0));
    assert(u64_from_le(b, 72) == u64_from_le(u64_le(f.current_amount), 0));
    assert(u64_from_le(b, 80) == u64_from_le(u64_le(f.time_started as u64), 0));
    let t = f.time_started;
    assert((t as u64) as i64 == t) by (bit_vector);
}

/// The pledge record of one contributor to one campaign.
#[derive(Debug, Clone, Copy, PartialEq, Eq, Structural)]
pub struct Contributor {
    pub amount: u64,
    pub bump: u8,
}

/// Size of the pledge record's storage.
pub const CONTRIBUTOR_LEN: usize = 9;

/// Bytes of a pledge record in its storage layout.
pub open spec fn contributor_bytes(c: Contributor) -> Seq<u8> {
    u64_le(c.amount) + seq![c.bump]
}

/// The pledge record that storage bytes hold.
pub open spec fn contributor_from_bytes(b: Seq<u8>) -> Contributor {
    Contributor { amount: u64_from_le(b, 0), bump: b[8] }
}

impl Contributor {
    /// A fresh pledge record.
    pub fn init(amount: u64, bump: u8) -> (r: Contributor)
        ensures
            r == (Contributor { amount, bump }),
    {
        Contributor { amount, bump }
    }

    /// Adds a further contribution to the pledge.
    pub fn increase_amount(&mut self, amount_to_increase: u64) -> (r: Result<(), ProcessError>)
        ensures
            r is Ok <==> old(self).amount + amount_to_increase <= u64::MAX,
            r is Ok ==> *final(self) == (Contributor {
                amount: (old(self).amount + amount_to_increase) as u64,
                bump: old(self).bump,
            }),
            r is Err ==> r == Err::<(), ProcessError>(ProcessError::ArithmeticOverflow)
                && *final(self) == *old(self),
    {
        match self.amount.checked_add(amount_to_increase) {
            Some(v) => {
                self.amount = v;
                Ok(())
            },
            None => Err(ProcessError::ArithmeticOverflow),
        }
    }

    /// The record's storage bytes.
    pub fn to_bytes(&self) -> (r: Vec<u8>)
        ensures
            r@ == contributor_bytes(*self),
            r@.len() == CONTRIBUTOR_LEN,
    {
        let mut out: Vec<u8> = Vec::new();
        push_u64_le(&mut out, self.amount);
        out.push(self.bump);
        assert(out@ =~= contributor_bytes(*self));
        out
    }

    /// Reads a record from its storage bytes.
    pub fn try_from_slice(data: &[u8]) -> (r: Result<Contributor, ProcessError>)
        ensures
            r is Ok <==> data@.len() == CONTRIBUTOR_LEN,
            r is Err ==> r == Err::<Contributor, ProcessError>(ProcessError::InvalidAccountData),
            r is Ok ==> r->Ok_0 == contributor_from_bytes(data@),
    {
        if data.len() != CONTRIBUTOR_LEN {
            return Err(ProcessError::InvalidAccountData);
        }
        Ok(Contributor { amount: read_u64_le(data, 0), bump: data[8] })
    }
}

/// Reading back the bytes written for a pledge record gives the record.
pub proof fn lemma_contributor_round_trip(c: Contributor)
    ensures
        contributor_bytes(c).len() == CONTRIBUTOR_LEN,
        contributor_from_bytes(contributor_bytes(c)) == c,
{
    lemma_u64_le_round_trip(c.amount);
    assert(u64_from_le(contributor_bytes(c), 0) == u64_from_le(u64_le(c.amount), 0));
}

} // verus!
