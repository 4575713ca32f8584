use vstd::prelude::*;
use vstd::slice::slice_to_vec;
use crate::records::{ids_where, lemma_ids_where_push};
use crate::types::{Address, PaymentToken, Transfer};

verus! {

/// What a producer records about a wine when registering it.
#[derive(Debug)]
pub struct WineDetails {
    pub vineyard: Vec<u8>,
    pub variety: Vec<u8>,
    pub vintage_year: u32,
    pub production_date: u64,
    /// Quality on a scale of 1 to 10.
    pub quality_grade: u8,
    /// Alcohol by volume in hundredths of a percent: 1250 is 12.50%.
    pub alcohol_content: u16,
    pub region: Vec<u8>,
    pub certification: Vec<u8>,
    pub producer_signature: Vec<u8>,
    /// Content address of further metadata.
    pub ipfs_hash: Vec<u8>,
    pub total_bottles: u32,
    pub available_bottles: u32,
    pub price_per_bottle: u128,
    pub is_organic: bool,
    pub harvest_date: u64,
    pub aging_process: Vec<u8>,
    pub tasting_notes: Vec<u8>,
}

/// One user's rating of a wine.
#[derive(Debug)]
pub struct WineRating {
    pub rater: Address,
    /// On a scale of 1 to 10.
    pub rating: u8,
    pub review: Vec<u8>,
    pub timestamp: u64,
}

/// An account allowed to certify wines.
#[derive(Debug)]
pub struct CertificationAuthority {
    pub name: Vec<u8>,
    pub authority_address: Address,
    pub is_active: bool,
    pub certification_count: u32,
}

/// A certification of a wine: who gave it, and the hash of its document.
#[derive(Debug)]
pub struct Certification {
    pub authority: Address,
    pub certification_hash: Vec<u8>,
}

/// Why a registry operation was rejected. A rejected operation changes nothing.
#[derive(Clone, Copy, Debug, PartialEq, Eq, Structural)]
pub enum RegistryError {
    InsufficientRegistrationFee,
    InvalidQualityGrade,
    AlcoholTooHigh,
    InvalidVintageYear,
    NoBottles,
    ZeroBottlePrice,
    MissingIpfsHash,
    UnknownWine,
    InvalidRating,
    AlreadyRated,
    NotOwner,
    NotCertificationAuthority,
    NotAuthorized,
    InsufficientBottles,
    IdSpaceExhausted,
    CounterOverflow,
}

/// Lowest quality grade or rating.
pub const MIN_GRADE: u8 = 1;

/// Highest quality grade or rating.
pub const MAX_GRADE: u8 = 10;

/// Highest alcohol content, in hundredths of a percent: 20%.
pub const MAX_ALCOHOL_CONTENT: u16 = 2000;

/// Earliest vintage year accepted.
pub const MIN_VINTAGE_YEAR: u32 = 1800;

/// Latest vintage year accepted.
pub const MAX_VINTAGE_YEAR: u32 = 2030;

/// The largest number of wines, or of authorities, the registry holds: each
/// gets a `u32` identifier from 1 up, and the counter keeps one ahead.
pub const MAX_ENTRIES: usize = 4294967294;

/// The largest number of ratings one wine can hold.
pub const MAX_RATINGS: usize = 4294967295;

/// The sum of the scores in `ratings`.
pub open spec fn rating_sum(ratings: Seq<WineRating>) -> int
    decreases ratings.len(),
{
    if ratings.len() == 0 {
        0
    } else {
        rating_sum(ratings.drop_last()) + ratings.last().rating as int
    }
}

/// The average score times 100, rounded down; 0 for no ratings.
pub open spec fn average_of(ratings: Seq<WineRating>) -> int {
    if ratings.len() == 0 {
        0
    } else {
        rating_sum(ratings) * 100 / ratings.len() as int
    }
}

/// Scores of at most 10 each sum to at most 10 per rating.
proof fn lemma_rating_sum_bounded(ratings: Seq<WineRating>)
    requires
        forall|i: int| 0 <= i < ratings.len() ==> (#[trigger] ratings[i]).rating <= MAX_GRADE,
    ensures
        0 <= rating_sum(ratings) <= 10 * ratings.len(),
    decreases ratings.len(),
{
    if ratings.len() > 0 {
        let rest = ratings.drop_last();
        assert forall|i: int| 0 <= i < rest.len() implies (#[trigger] rest[i]).rating <= MAX_GRADE by {
            assert(rest[i] == ratings[i]);
        }
        lemma_rating_sum_bounded(rest);
    }
}

/// The average score of `ratings` times 100, rounded down; 0 for none.
pub fn average_rating(ratings: &Vec<WineRating>) -> (r: u16)
    requires
        ratings@.len() <= MAX_RATINGS,
        forall|i: int| 0 <= i < ratings@.len() ==> MIN_GRADE <= (#[trigger] ratings@[i]).rating <= MAX_GRADE,
    ensures
        r == average_of(ratings@),
{
    let n = ratings.len();
    if n == 0 {
        return 0;
    }
    let mut total: u64 = 0;
    let mut i: usize = 0;
    while i < n
        invariant
            n == ratings@.len(),
            n <= MAX_RATINGS,
            0 <= i <= n,
            forall|j: int| 0 <= j < n ==> MIN_GRADE <= (#[trigger] ratings@[j]).rating <= MAX_GRADE,
            total == rating_sum(ratings@.take(i as int)),
            total <= 10 * i,
        decreases n - i,
    {
        assert(ratings@.take(i + 1).drop_last() =~= ratings@.take(i as int));
        total = total + ratings[i].rating as u64;
        i += 1;
    }
    assert(ratings@.take(n as int) =~= ratings@);
    let average: u64 = total * 100 / n as u64;
    assert(average <= 1000) by (nonlinear_arith)
        requires average == total * 100 / n as int, total <= 10 * n, n > 0;
    average as u16
}

/// The state of a registry as contracts see it. Wine `id` is at index
/// `id - 1` of each per-wine sequence, authority `id` at index `id - 1` of
/// `authorities`.
pub struct RegistryView {
    pub registration_fee: u128,
    pub owner: Address,
    pub wines: Seq<WineDetails>,
    pub wine_owners: Seq<Address>,
    pub ratings: Seq<Seq<WineRating>>,
    pub certifications: Seq<Seq<Certification>>,
    pub authorities: Seq<CertificationAuthority>,
}

impl RegistryView {
    /// The registry's invariant.
    pub open spec fn wf(self) -> bool {
        &&& self.wines.len() <= MAX_ENTRIES
        &&& self.wine_owners.len() == self.wines.len()
        &&& self.ratings.len() == self.wines.len()
        &&& self.certifications.len() == self.wines.len()
        &&& 1 <= self.authorities.len() <= MAX_ENTRIES
        &&& forall|w: int| 0 <= w < self.ratings.len() ==> (#[trigger] self.ratings[w]).len() <= MAX_RATINGS
        &&& forall|w: int, i: int|
            0 <= w < self.ratings.len() && 0 <= i < self.ratings[w].len() ==> MIN_GRADE
                <= (#[trigger] self.ratings[w][i]).rating <= MAX_GRADE
    }

    pub open spec fn has_wine(self, id: u32) -> bool {
        1 <= id <= self.wines.len()
    }

    /// Whether `who` has rated wine `id`.
    pub open spec fn has_rated(self, id: u32, who: Address) -> bool {
        exists|i: int| 0 <= i < self.ratings[id - 1].len() && (#[trigger] self.ratings[id - 1][i]).rater == who
    }

    /// Whether `who` is an active certification authority.
    pub open spec fn is_authority(self, who: Address) -> bool {
        exists|i: int|
            0 <= i < self.authorities.len() && (#[trigger] self.authorities[i]).authority_address == who
                && self.authorities[i].is_active
    }

    /// The first check that `register_wine` fails, if any.
    pub open spec fn register_wine_error(
        self,
        payment: u128,
        vintage_year: u32,
        quality_grade: u8,
        alcohol_content: u16,
        ipfs_hash: Seq<u8>,
        total_bottles: u32,
        price_per_bottle: u128,
    ) -> Option<RegistryError> {
        if payment < self.registration_fee {
            Some(RegistryError::InsufficientRegistrationFee)
        } else if !(MIN_GRADE <= quality_grade <= MAX_GRADE) {
            Some(RegistryError::InvalidQualityGrade)
        } else if alcohol_content > MAX_ALCOHOL_CONTENT {
            Some(RegistryError::AlcoholTooHigh)
        } else if !(MIN_VINTAGE_YEAR <= vintage_year <= MAX_VINTAGE_YEAR) {
            Some(RegistryError::InvalidVintageYear)
        } else if total_bottles == 0 {
            Some(RegistryError::NoBottles)
        } else if price_per_bottle == 0 {
            Some(RegistryError::ZeroBottlePrice)
        } else if ipfs_hash.len() == 0 {
            Some(RegistryError::MissingIpfsHash)
        } else if self.wines.len() >= MAX_ENTRIES {
            Some(RegistryError::IdSpaceExhausted)
        } else {
            None
        }
    }

    /// The first check that `rate_wine` fails, if any.
    pub open spec fn rate_wine_error(self, caller: Address, id: u32, rating: u8) -> Option<RegistryError> {
        if !self.has_wine(id) {
            Some(RegistryError::UnknownWine)
        } else if !(MIN_GRADE <= rating <= MAX_GRADE) {
            Some(RegistryError::InvalidRating)
        } else if self.has_rated(id, caller) {
            Some(RegistryError::AlreadyRated)
        } else if self.ratings[id - 1].len() >= MAX_RATINGS {
            Some(RegistryError::CounterOverflow)
        } else {
            None
        }
    }

    /// Whether authority `i` is the first one on record for `who`.
    pub open spec fn is_first_authority(self, who: Address, i: int) -> bool {
        &&& 0 <= i < self.authorities.len()
        &&& self.authorities[i].authority_address == who
        &&& forall|j: int| 0 <= j < i ==> (#[trigger] self.authorities[j]).authority_address != who
    }

    /// Which wines `producer` registered.
    pub open spec fn producer_flags(self, producer: Address) -> Seq<bool> {
        Seq::new(self.wine_owners.len(), |i: int| self.wine_owners[i] == producer)
    }
}

/// A registry of wines, their ratings and their certifications.
pub struct WineRegistry {
    registration_fee: u128,
    owner: Address,
    wines: Vec<WineDetails>,
    wine_owners: Vec<Address>,
    ratings: Vec<Vec<WineRating>>,
    certifications: Vec<Vec<Certification>>,
    authorities: Vec<CertificationAuthority>,
}

impl View for WineRegistry {
    type V = RegistryView;

    closed spec fn view(&self) -> RegistryView {
        RegistryView {
            registration_fee: self.registration_fee,
            owner: self.owner,
            wines: self.wines@,
            wine_owners: self.wine_owners@,
            ratings: self.ratings@.map_values(|v: Vec<WineRating>| v@),
            certifications: self.certifications@.map_values(|v: Vec<Certification>| v@),
            authorities: self.authorities@,
        }
    }
}

impl WineRegistry {
    /// The invariant, on the registry itself.
    pub open spec fn wf(&self) -> bool {
        self@.wf()
    }

    /// An empty registry owned by `owner`, which charges `registration_fee`
    /// per wine and has the owner as its first certification authority.
    pub fn new(registration_fee: u128, owner: Address) -> (r: WineRegistry)
        ensures
            r.wf(),
            r@.registration_fee == registration_fee,
            r@.owner == owner,
            r@.wines.len() == 0,
            r@.authorities.len() == 1,
            r@.authorities[0].authority_address == owner,
            r@.authorities[0].is_active,
            r@.authorities[0].certification_count == 0,
    {
        let mut authorities: Vec<CertificationAuthority> = Vec::new();
        authorities.push(
            CertificationAuthority {
                name: slice_to_vec("Contract Owner".as_bytes()),
                authority_address: owner,
                is_active: true,
                certification_count: 0,
            },
        );
        let r = WineRegistry {
            registration_fee,
            owner,
            wines: Vec::new(),
            wine_owners: Vec::new(),
            ratings: Vec::new(),
            certifications: Vec::new(),
            authorities,
        };
        proof {
            assert(r@.ratings =~= Seq::<Seq<WineRating>>::empty());
            assert(r@.certifications =~= Seq::<Seq<Certification>>::empty());
        }
        r
    }

    /// Registers a wine for `caller`, who attached `payment` in the native
    /// currency; returns the new wine's identifier and the refund of any
    /// payment above the registration fee.
    pub fn register_wine(
        &mut self,
        caller: Address,
        now: u64,
        payment: u128,
        vineyard: Vec<u8>,
        variety: Vec<u8>,
        vintage_year: u32,
        quality_grade: u8,
        alcohol_content: u16,
        region: Vec<u8>,
        certification: Vec<u8>,
        producer_signature: Vec<u8>,
        ipfs_hash: Vec<u8>,
        total_bottles: u32,
        price_per_bottle: u128,
        is_organic: bool,
        harvest_date: u64,
        aging_process: Vec<u8>,
        tasting_notes: Vec<u8>,
    ) -> (r: Result<(u32, Option<Transfer>), RegistryError>)
        requires
            old(self).wf(),
        ensures
            final(self).wf(),
            match r {
                Ok((id, refund)) => {
                    let old_v = old(self)@;
                    &&& old_v.register_wine_error(
                        payment,
                        vintage_year,
                        quality_grade,
                        alcohol_content,
                        ipfs_hash@,
                        total_bottles,
                        price_per_bottle,
                    ) == None::<RegistryError>
                    &&& id == old_v.wines.len() + 1
                    &&& final(self)@ == RegistryView {
                        wines: old_v.wines.push(
                            WineDetails {
                                vineyard,
                                variety,
                                vintage_year,
                                production_date: now,
                                quality_grade,
                                alcohol_content,
                                region,
                                certification,
                                producer_signature,
                                ipfs_hash,
                                total_bottles,
                                available_bottles: total_bottles,
                                price_per_bottle,
                                is_organic,
                                harvest_date,
                                aging_process,
                                tasting_notes,
                            },
                        ),
                        wine_owners: old_v.wine_owners.push(caller),
                        ratings: old_v.ratings.push(Seq::empty()),
                        certifications: old_v.certifications.push(Seq::empty()),
                        ..old_v
                    }
                    &&& refund == if payment > old_v.registration_fee {
                        Some(
                            Transfer::Funds {
                                to: caller,
                                token: PaymentToken::Native,
                                amount: (payment - old_v.registration_fee) as u128,
                            },
                        )
                    } else {
                        None
                    }
                },
                Err(e) => {
                    &&& old(self)@.register_wine_error(
                        payment,
                        vintage_year,
                        quality_grade,
                        alcohol_content,
                        ipfs_hash@,
                        total_bottles,
                        price_per_bottle,
                    ) == Some(e)
                    &&& final(self)@ == old(self)@
                },
            },
    {
        if payment < self.registration_fee {
            return Err(RegistryError::InsufficientRegistrationFee);
        }
        if quality_grade < MIN_GRADE || quality_grade > MAX_GRADE {
            return Err(RegistryError::InvalidQualityGrade);
        }
        if alcohol_content > MAX_ALCOHOL_CONTENT {
            return Err(RegistryError::AlcoholTooHigh);
        }
        if vintage_year < MIN_VINTAGE_YEAR || vintage_year > MAX_VINTAGE_YEAR {
            return Err(RegistryError::InvalidVintageYear);
        }
        if total_bottles == 0 {
            return Err(RegistryError::NoBottles);
        }
        if price_per_bottle == 0 {
            return Err(RegistryError::ZeroBottlePrice);
        }
        if ipfs_hash.len() == 0 {
            return Err(RegistryError::MissingIpfsHash);
        }
        if self.wines.len() >= MAX_ENTRIES {
            return Err(RegistryError::IdSpaceExhausted);
        }
        let wine_id = (self.wines.len() + 1) as u32;
        let ghost old_v = self@;
        self.wines.push(
            WineDetails {
                vineyard,
                variety,
                vintage_year,
                production_date: now,
                quality_grade,
                alcohol_content,
                region,
                certification,
                producer_signature,
                ipfs_hash,
                total_bottles,
                available_bottles: total_bottles,
                price_per_bottle,
                is_organic,
                harvest_date,
                aging_process,
                tasting_notes,
            },
        );
        self.wine_owners.push(caller);
        self.ratings.push(Vec::new());
        self.certifications.push(Vec::new());
        proof {
            assert(self@.ratings =~= old_v.ratings.push(Seq::empty()));
            assert(self@.certifications =~= old_v.certifications.push(Seq::empty()));
            assert forall|w: int, i: int|
                0 <= w < self@.ratings.len() && 0 <= i < self@.ratings[w].len() implies MIN_GRADE
                    <= (#[trigger] self@.ratings[w][i]).rating <= MAX_GRADE by {
                assert(w < old_v.ratings.len());
                assert(self@.ratings[w] == old_v.ratings[w]);
            }
            assert forall|w: int| 0 <= w < self@.ratings.len() implies (#[trigger] self@.ratings[w]).len()
                <= MAX_RATINGS by {
                if w < old_v.ratings.len() {
                    assert(self@.ratings[w] == old_v.ratings[w]);
                }
            }
        }
        let refund = if payment > self.registration_fee {
            Some(
                Transfer::Funds {
                    to: caller,
                    token: PaymentToken::Native,
                    amount: payment - self.registration_fee,
                },
            )
        } else {
            None
        };
        Ok((wine_id, refund))
    }

    /// Records `caller`'s rating of wine `wine_id`; each user rates a wine once.
    pub fn rate_wine(&mut self, caller: Address, now: u64, wine_id: u32, rating: u8, review: Vec<u8>) -> (r:
        Result<(), RegistryError>)
        requires
            old(self).wf(),
        ensures
            final(self).wf(),
            match r {
                Ok(()) => {
                    let old_v = old(self)@;
                    let entry = WineRating { rater: caller, rating, review, timestamp: now };
                    &&& old_v.rate_wine_error(caller, wine_id, rating) == None::<RegistryError>
                    &&& final(self)@ == RegistryView {
                        ratings: old_v.ratings.update(
                            wine_id - 1,
                            old_v.ratings[wine_id - 1].push(entry),
                        ),
                        ..old_v
                    }
                },
                Err(e) => {
                    &&& old(self)@.rate_wine_error(caller, wine_id, rating) == Some(e)
                    &&& final(self)@ == old(self)@
                },
            },
    {
        if wine_id < 1 || wine_id as usize > self.wines.len() {
            return Err(RegistryError::UnknownWine);
        }
        if rating < MIN_GRADE || rating > MAX_GRADE {
            return Err(RegistryError::InvalidRating);
        }
        let idx = (wine_id - 1) as usize;
        let ghost old_v = self@;
        assert(self.ratings@[idx as int]@ == old_v.ratings[idx as int]);
        let n = self.ratings[idx].len();
        let mut i: usize = 0;
        while i < n
            invariant
                self@ == old_v,
                old_v.wf(),
                old(self)@ == old_v,
                old_v.has_wine(wine_id),
                MIN_GRADE <= rating <= MAX_GRADE,
                n == old_v.ratings[idx as int].len(),
                idx == wine_id - 1,
                0 <= i <= n,
                forall|j: int| 0 <= j < i ==> (#[trigger] old_v.ratings[idx as int][j]).rater != caller,
            decreases n - i,
        {
            assert(self.ratings@[idx as int]@ == old_v.ratings[idx as int]);
            if self.ratings[idx][i].rater == caller {
                assert(old_v.ratings[wine_id - 1][i as int].rater == caller);
                return Err(RegistryError::AlreadyRated);
            }
            i += 1;
        }
        if n >= MAX_RATINGS {
            return Err(RegistryError::CounterOverflow);
        }
        let entry = WineRating { rater: caller, rating, review, timestamp: now };
        self.ratings[idx].push(entry);
        proof {
            let expected = old_v.ratings.update(idx as int, old_v.ratings[idx as int].push(entry));
            assert(self@.ratings =~= expected);
            assert forall|w: int, k: int|
                0 <= w < self@.ratings.len() && 0 <= k < self@.ratings[w].len() implies MIN_GRADE
                    <= (#[trigger] self@.ratings[w][k]).rating <= MAX_GRADE by {
                if w != idx as int || k < old_v.ratings[w].len() {
                    assert(self@.ratings[w][k] == old_v.ratings[w][k]);
                }
            }
            assert forall|w: int| 0 <= w < self@.ratings.len() implies (#[trigger] self@.ratings[w]).len()
                <= MAX_RATINGS by {
                assert(w != idx as int ==> self@.ratings[w] == old_v.ratings[w]);
            }
        }
        Ok(())
    }

    /// Adds a certification authority; only the owner may. Returns its identifier.
    pub fn add_certification_authority(&mut self, caller: Address, name: Vec<u8>, authority_address: Address) -> (r:
        Result<u32, RegistryError>)
        requires
            old(self).wf(),
        ensures
            final(self).wf(),
            caller != old(self)@.owner ==> r == Err::<u32, RegistryError>(RegistryError::NotOwner),
            caller == old(self)@.owner && old(self)@.authorities.len() >= MAX_ENTRIES ==> r == Err::<
                u32,
                RegistryError,
            >(RegistryError::IdSpaceExhausted),
            r is Err ==> final(self)@ == old(self)@,
            r matches Ok(id) ==> {
                &&& caller == old(self)@.owner
                &&& id == old(self)@.authorities.len() + 1
                &&& final(self)@ == RegistryView {
                    authorities: old(self)@.authorities.push(
                        CertificationAuthority {
                            name,
                            authority_address,
                            is_active: true,
                            certification_count: 0,
                        },
                    ),
                    ..old(self)@
                }
            },
            caller == old(self)@.owner && old(self)@.authorities.len() < MAX_ENTRIES ==> r is Ok,
    {
        if caller != self.owner {
            return Err(RegistryError::NotOwner);
        }
        if self.authorities.len() >= MAX_ENTRIES {
            return Err(RegistryError::IdSpaceExhausted);
        }
        let authority_id = (self.authorities.len() + 1) as u32;
        self.authorities.push(
            CertificationAuthority { name, authority_address, is_active: true, certification_count: 0 },
        );
        Ok(authority_id)
    }

    /// Whether `address` is an active certification authority.
    pub fn is_certification_authority(&self, address: Address) -> (r: bool)
        ensures
            r == self@.is_authority(address),
    {
        let mut i: usize = 0;
        while i < self.authorities.len()
            invariant
                0 <= i <= self@.authorities.len(),
                forall|j: int|
                    0 <= j < i ==> !((#[trigger] self@.authorities[j]).authority_address == address
                        && self@.authorities[j].is_active),
            decreases self@.authorities.len() - i,
        {
            if self.authorities[i].authority_address == address && self.authorities[i].is_active {
                return true;
            }
            i += 1;
        }
        false
    }

    /// The identifier of the first authority on record for `address`, or 0
    /// where there is none.
    pub fn get_authority_id(&self, address: Address) -> (r: u32)
        requires
            self.wf(),
        ensures
            r == 0 <==> forall|j: int| 0 <= j < self@.authorities.len() ==> (#[trigger] self@.authorities[j]).authority_address != address,
            r != 0 ==> self@.is_first_authority(address, r - 1),
    {
        let mut i: usize = 0;
        while i < self.authorities.len()
            invariant
                self.wf(),
                0 <= i <= self@.authorities.len(),
                forall|j: int| 0 <= j < i ==> (#[trigger] self@.authorities[j]).authority_address != address,
            decreases self@.authorities.len() - i,
        {
            if self.authorities[i].authority_address == address {
                return (i + 1) as u32;
            }
            i += 1;
        }
        0
    }

    /// Records a certification of wine `wine_id` by `caller`, who must be an
    /// active authority, and counts it for the first authority on record for
    /// `caller`.
    pub fn certify_wine(&mut self, caller: Address, wine_id: u32, certification_hash: Vec<u8>) -> (r:
        Result<(), RegistryError>)
        requires
            old(self).wf(),
        ensures
            final(self).wf(),
            !old(self)@.has_wine(wine_id) ==> r == Err::<(), RegistryError>(RegistryError::UnknownWine),
            old(self)@.has_wine(wine_id) && !old(self)@.is_authority(caller) ==> r == Err::<(), RegistryError>(
                RegistryError::NotCertificationAuthority,
            ),
            r is Err ==> final(self)@ == old(self)@,
            old(self)@.has_wine(wine_id) && old(self)@.is_authority(caller) ==> exists|a: int|
                {
                    &&& old(self)@.is_first_authority(caller, a)
                    &&& (old(self)@.authorities[a].certification_count == u32::MAX ==> r == Err::<(), RegistryError>(
                        RegistryError::CounterOverflow,
                    ))
                    &&& (old(self)@.authorities[a].certification_count < u32::MAX ==> {
                        &&& r is Ok
                        &&& final(self)@.authorities == old(self)@.authorities.update(
                            a,
                            CertificationAuthority {
                                certification_count: (old(self)@.authorities[a].certification_count + 1) as u32,
                                ..old(self)@.authorities[a]
                            },
                        )
                        &&& final(self)@.certifications == old(self)@.certifications.update(
                            wine_id - 1,
                            old(self)@.certifications[wine_id - 1].push(
                                Certification { authority: caller, certification_hash },
                            ),
                        )
                        &&& final(self)@ == RegistryView {
                            authorities: final(self)@.authorities,
                            certifications: final(self)@.certifications,
                            ..old(self)@
                        }
                    })
                },
    {
        if wine_id < 1 || wine_id as usize > self.wines.len() {
            return Err(RegistryError::UnknownWine);
        }
        if !self.is_certification_authority(caller) {
            return Err(RegistryError::NotCertificationAuthority);
        }
        let authority_id = self.get_authority_id(caller);
        let a = (authority_id - 1) as usize;
        let count = self.authorities[a].certification_count;
        if count == u32::MAX {
            return Err(RegistryError::CounterOverflow);
        }
        let idx = (wine_id - 1) as usize;
        let ghost old_v = self@;
        self.certifications[idx].push(Certification { authority: caller, certification_hash });
        self.authorities[a].certification_count = count + 1;
        proof {
            assert(self@.certifications =~= old_v.certifications.update(
                idx as int,
                old_v.certifications[idx as int].push(
                    Certification { authority: caller, certification_hash },
                ),
            ));
            assert(self@.ratings =~= old_v.ratings);
            assert(self@.authorities =~= old_v.authorities.update(
                a as int,
                CertificationAuthority {
                    certification_count: (count + 1) as u32,
                    ..old_v.authorities[a as int]
                },
            ));
        }
        Ok(())
    }

    /// Takes `bottles_sold` bottles off wine `wine_id`'s availability; only
    /// its owner may.
    pub fn update_wine_availability(&mut self, caller: Address, wine_id: u32, bottles_sold: u32) -> (r:
        Result<(), RegistryError>)
        requires
            old(self).wf(),
        ensures
            final(self).wf(),
            !old(self)@.has_wine(wine_id) || caller != old(self)@.wine_owners[wine_id - 1] ==> r == Err::<
                (),
                RegistryError,
            >(RegistryError::NotAuthorized),
            old(self)@.has_wine(wine_id) && caller == old(self)@.wine_owners[wine_id - 1] ==> {
                let w = old(self)@.wines[wine_id - 1];
                &&& w.available_bottles < bottles_sold ==> r == Err::<(), RegistryError>(
                    RegistryError::InsufficientBottles,
                )
                &&& w.available_bottles >= bottles_sold ==> r is Ok && final(self)@ == RegistryView {
                    wines: old(self)@.wines.update(
                        wine_id - 1,
                        WineDetails { available_bottles: (w.available_bottles - bottles_sold) as u32, ..w },
                    ),
                    ..old(self)@
                }
            },
            r is Err ==> final(self)@ == old(self)@,
    {
        if wine_id < 1 || wine_id as usize > self.wines.len() || caller != self.wine_owners[(wine_id
            - 1) as usize] {
            return Err(RegistryError::NotAuthorized);
        }
        let idx = (wine_id - 1) as usize;
        let available = self.wines[idx].available_bottles;
        if available < bottles_sold {
            return Err(RegistryError::InsufficientBottles);
        }
        let ghost old_v = self@;
        self.wines[idx].available_bottles = available - bottles_sold;
        proof {
            assert(self@.wines =~= old_v.wines.update(
                idx as int,
                WineDetails { available_bottles: (available - bottles_sold) as u32, ..old_v.wines[idx as int] },
            ));
        }
        Ok(())
    }

    /// The details of wine `wine_id`, if it is registered.
    pub fn get_wine_details(&self, wine_id: u32) -> (r: Option<&WineDetails>)
        ensures
            r is Some == self@.has_wine(wine_id),
            r matches Some(d) ==> *d == self@.wines[wine_id - 1],
    {
        if wine_id >= 1 && wine_id as usize <= self.wines.len() {
            Some(&self.wines[(wine_id - 1) as usize])
        } else {
            None
        }
    }

    /// The producer who registered wine `wine_id`, if it is registered.
    pub fn get_wine_owner(&self, wine_id: u32) -> (r: Option<Address>)
        requires
            self.wf(),
        ensures
            r == if self@.has_wine(wine_id) {
                Some(self@.wine_owners[wine_id - 1])
            } else {
                None
            },
    {
        if wine_id >= 1 && wine_id as usize <= self.wine_owners.len() {
            Some(self.wine_owners[(wine_id - 1) as usize])
        } else {
            None
        }
    }

    /// The ratings of wine `wine_id`, oldest first, if it is registered.
    pub fn get_wine_ratings(&self, wine_id: u32) -> (r: Option<&Vec<WineRating>>)
        requires
            self.wf(),
        ensures
            r is Some == self@.has_wine(wine_id),
            r matches Some(v) ==> v@ == self@.ratings[wine_id - 1],
    {
        if wine_id >= 1 && wine_id as usize <= self.ratings.len() {
            let v = &self.ratings[(wine_id - 1) as usize];
            assert(v@ == self@.ratings[wine_id - 1]);
            Some(v)
        } else {
            None
        }
    }

    /// The certifications of wine `wine_id`, oldest first, if it is registered.
    pub fn get_wine_certifications(&self, wine_id: u32) -> (r: Option<&Vec<Certification>>)
        requires
            self.wf(),
        ensures
            r is Some == self@.has_wine(wine_id),
            r matches Some(v) ==> v@ == self@.certifications[wine_id - 1],
    {
        if wine_id >= 1 && wine_id as usize <= self.certifications.len() {
            let v = &self.certifications[(wine_id - 1) as usize];
            assert(v@ == self@.certifications[wine_id - 1]);
            Some(v)
        } else {
            None
        }
    }

    /// The average rating of wine `wine_id` times 100, rounded down; 0 where
    /// it has no ratings or is not registered.
    pub fn get_wine_average_rating(&self, wine_id: u32) -> (r: u16)
        requires
            self.wf(),
        ensures
            r == if self@.has_wine(wine_id) {
                average_of(self@.ratings[wine_id - 1])
            } else {
                0
            },
    {
        if wine_id >= 1 && wine_id as usize <= self.ratings.len() {
            let idx = (wine_id - 1) as usize;
            assert(self.ratings@[idx as int]@ == self@.ratings[idx as int]);
            average_rating(&self.ratings[idx])
        } else {
            0
        }
    }

    /// The identifiers of the wines `producer` registered, oldest first.
    pub fn get_producer_wines(&self, producer: Address) -> (r: Vec<u32>)
        requires
            self.wf(),
        ensures
            r@ == ids_where(self@.producer_flags(producer)),
    {
        let mut out: Vec<u32> = Vec::new();
        let mut i: usize = 0;
        while i < self.wine_owners.len()
            invariant
                self.wf(),
                0 <= i <= self@.wine_owners.len(),
                out@ == ids_where(self@.producer_flags(producer).take(i as int)),
            decreases self@.wine_owners.len() - i,
        {
            proof {
                let f = self@.producer_flags(producer);
                lemma_ids_where_push(f.take(i as int), f[i as int]);
                assert(f.take(i + 1) =~= f.take(i as int).push(f[i as int]));
            }
            if self.wine_owners[i] == producer {
                out.push((i + 1) as u32);
            }
            i += 1;
        }
        proof {
            assert(self@.producer_flags(producer).take(i as int) =~= self@.producer_flags(producer));
        }
        out
    }

    /// How many wines are registered.
    pub fn get_total_wines_registered(&self) -> (r: u32)
        requires
            self.wf(),
        ensures
            r == self@.wines.len(),
    {
        self.wines.len() as u32
    }

    /// The fee charged per registration, in the native currency.
    pub fn get_registration_fee(&self) -> (r: u128)
        ensures
            r == self@.registration_fee,
    {
        self.registration_fee
    }
}

} // verus!
