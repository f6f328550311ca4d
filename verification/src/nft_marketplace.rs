//! The peer-to-peer asset marketplace: list an asset at a price, buy it,
//! cancel the listing, or update its price.
//!
//! Listing an asset moves one asset unit into an escrow custody record
//! whose authority is the derived identity of the listing slot; buying
//! settles three legs atomically (buyer to seller, buyer to fee recipient,
//! escrow to buyer) and retires the listing; cancelling returns the asset
//! and retires the listing. Retired listings are never reactivated and
//! their slots are never reused.

use vstd::prelude::*;

use crate::custody::pda_of;
use crate::identity::Identity;

verus! {

/// Namespace tag of a listing slot; the discriminant is the asset identity.
pub const LISTING_TAG: u8 = 1;

/// The marketplace configuration record together with every listing slot
/// ever created, keyed by the asset identity.
#[derive(Debug)]
pub struct MarketplaceState {
    pub authority: Identity,
    pub fee_recipient: Identity,
    pub platform_fee_percent: u16,
    pub listing_count: u64,
    pub bump: u8,
    pub listings: Vec<Listing>,
}

/// One listing slot. While `active` the escrow custody record derived from
/// the asset identity holds exactly one asset unit; once retired the slot
/// stays, inactive, forever.
#[derive(Clone, Copy, Debug)]
pub struct Listing {
    pub listing_id: u64,
    pub nft_mint: Identity,
    pub seller: Identity,
    pub price: u64,
    pub active: bool,
    pub bump: u8,
}

/// Notification of a completed listing.
#[derive(Clone, Copy, Debug)]
pub struct NFTListed {
    pub listing_id: u64,
    pub nft_mint: Identity,
    pub seller: Identity,
    pub price: u64,
}

/// Notification of a completed sale.
#[derive(Clone, Copy, Debug)]
pub struct NFTSold {
    pub listing_id: u64,
    pub nft_mint: Identity,
    pub seller: Identity,
    pub buyer: Identity,
    pub price: u64,
}

/// Notification of a cancelled listing.
#[derive(Clone, Copy, Debug)]
pub struct ListingCancelled {
    pub listing_id: u64,
}

/// The settled amounts of a sale: the payment legs the host executes and
/// the notification. The seller amount and the platform fee always sum
/// back to the listing price exactly.
#[derive(Clone, Copy, Debug)]
pub struct SaleOutcome {
    pub event: NFTSold,
    pub seller_amount: u64,
    pub platform_fee: u64,
}

#[derive(Clone, Copy, Debug, PartialEq, Eq, Structural)]
pub enum MarketplaceError {
    InvalidPrice,
    ListingNotActive,
    CannotBuyOwnNFT,
    FeeTooHigh,
    MathOverflow,
    Unauthorized,
    AlreadyListed,
    ListingNotFound,
    InsufficientFunds,
}

/// Whether some listing slot carries this asset.
pub open spec fn has_listing(listings: Seq<Listing>, nft_mint: Identity) -> bool {
    exists|i: int| 0 <= i < listings.len() && listings[i].nft_mint == nft_mint
}

/// The index of the listing slot that carries this asset; well defined
/// whenever the slots are well formed, because at most one slot per asset
/// exists.
pub open spec fn listing_index(listings: Seq<Listing>, nft_mint: Identity) -> int {
    choose|i: int| 0 <= i < listings.len() && listings[i].nft_mint == nft_mint
}

/// The platform fee for a sale: the price times the fee in basis points,
/// truncated once by the division.
pub open spec fn fee_of(price: u64, fee_bp: u16) -> int {
    (price * fee_bp) / 10000
}

impl MarketplaceState {
    /// Well-formedness: the fee never exceeds 1000 basis points, and no
    /// two listing slots carry the same asset.
    pub open spec fn wf(self) -> bool {
        &&& self.platform_fee_percent <= 1000
        &&& forall|i: int, j: int|
            0 <= i < j < self.listings.len() ==> self.listings[i].nft_mint
                != self.listings[j].nft_mint
    }

    /// Bootstrap the marketplace. The caller becomes the admin authority;
    /// the fee is rejected above 1000 basis points (10%).
    pub fn initialize(
        authority: Identity,
        fee_recipient: Identity,
        platform_fee_percent: u16,
        bump: u8,
    ) -> (r: Result<MarketplaceState, MarketplaceError>)
        ensures
            match r {
                Ok(state) => {
                    &&& platform_fee_percent <= 1000
                    &&& state.wf()
                    &&& state.authority == authority
                    &&& state.fee_recipient == fee_recipient
                    &&& state.platform_fee_percent == platform_fee_percent
                    &&& state.listing_count == 0
                    &&& state.bump == bump
                    &&& state.listings@ == Seq::<Listing>::empty()
                },
                Err(e) => e == MarketplaceError::FeeTooHigh && platform_fee_percent > 1000,
            },
    {
        if platform_fee_percent > 1000 {
            return Err(MarketplaceError::FeeTooHigh);
        }
        let state = MarketplaceState {
            authority,
            fee_recipient,
            platform_fee_percent,
            listing_count: 0,
            bump,
            listings: Vec::new(),
        };
        Ok(state)
    }

    /// The slot that carries this asset, if any.
    fn find_listing(&self, nft_mint: &Identity) -> (r: Option<usize>)
        requires
            self.wf(),
        ensures
            match r {
                Some(i) => {
                    &&& i < self.listings@.len()
                    &&& self.listings@[i as int].nft_mint == *nft_mint
                    &&& i as int == listing_index(self.listings@, *nft_mint)
                },
                None => !has_listing(self.listings@, *nft_mint),
            },
    {
        let n = self.listings.len();
        let mut i: usize = 0;
        while i < n
            invariant
                self.wf(),
                n == self.listings@.len(),
                i <= n,
                forall|j: int| 0 <= j < i ==> self.listings@[j].nft_mint != *nft_mint,
            decreases n - i,
        {
            if self.listings[i].nft_mint == *nft_mint {
                proof {
                    let w = listing_index(self.listings@, *nft_mint);
                    assert(0 <= w < self.listings@.len() && self.listings@[w].nft_mint
                        == *nft_mint);
                    if w != i as int {
                        assert(false);
                    }
                }
                return Some(i);
            }
            i = i + 1;
        }
        None
    }

    /// List an asset for sale. Creates the listing slot, assigns the next
    /// sequence id, and marks the slot active; the host moves one asset
    /// unit from the seller into the escrow custody record. An asset whose
    /// slot already exists, even retired, cannot be listed again.
    pub fn list_nft(
        &mut self,
        seller: Identity,
        nft_mint: Identity,
        price: u64,
        bump: u8,
    ) -> (r: Result<NFTListed, MarketplaceError>)
        requires
            old(self).wf(),
        ensures
            final (self).wf(),
            final (self).authority == old(self).authority,
            final (self).fee_recipient == old(self).fee_recipient,
            final (self).platform_fee_percent == old(self).platform_fee_percent,
            final (self).bump == old(self).bump,
            final (self).listing_count >= old(self).listing_count,
            match r {
                Ok(ev) => {
                    &&& !has_listing(old(self).listings@, nft_mint)
                    &&& price > 0
                    &&& old(self).listing_count < u64::MAX
                    &&& final (self).listing_count == old(self).listing_count + 1
                    &&& final (self).listings@ == old(self).listings@.push(
                        (Listing {
                            listing_id: (old(self).listing_count + 1) as u64,
                            nft_mint,
                            seller,
                            price,
                            active: true,
                            bump,
                        }),
                    )
                    &&& ev == (NFTListed {
                        listing_id: (old(self).listing_count + 1) as u64,
                        nft_mint,
                        seller,
                        price,
                    })
                },
                Err(e) => {
                    &&& *final (self) == *old(self)
                    &&& (e == MarketplaceError::AlreadyListed <==> has_listing(
                        old(self).listings@,
                        nft_mint,
                    ))
                    &&& (e == MarketplaceError::InvalidPrice <==> !has_listing(
                        old(self).listings@,
                        nft_mint,
                    ) && price == 0)
                    &&& (e == MarketplaceError::MathOverflow <==> !has_listing(
                        old(self).listings@,
                        nft_mint,
                    ) && price > 0 && old(self).listing_count == u64::MAX)
                    &&& (e == MarketplaceError::AlreadyListed || e
                        == MarketplaceError::InvalidPrice || e == MarketplaceError::MathOverflow)
                },
            },
    {
        if self.find_listing(&nft_mint).is_some() {
            return Err(MarketplaceError::AlreadyListed);
        }
        if price == 0 {
            return Err(MarketplaceError::InvalidPrice);
        }
        let next_count = match self.listing_count.checked_add(1) {
            Some(c) => c,
            None => {
                return Err(MarketplaceError::MathOverflow);
            },
        };
        self.listing_count = next_count;
        let listing = Listing { listing_id: next_count, nft_mint, seller, price, active: true, bump };
        self.listings.push(listing);
        Ok(NFTListed { listing_id: next_count, nft_mint, seller, price })
    }

    /// Buy a listed asset. Settles three legs in one atomic step: the
    /// seller amount from the buyer to the seller, the platform fee from
    /// the buyer to the fee recipient, and the escrowed asset unit to the
    /// buyer, authorized by the listing slot's derived identity. Retires
    /// the listing.
    pub fn buy_nft(&mut self, buyer: Identity, buyer_balance: u64, nft_mint: Identity) -> (r:
        Result<SaleOutcome, MarketplaceError>)
        requires
            old(self).wf(),
        ensures
            final (self).wf(),
            final (self).authority == old(self).authority,
            final (self).fee_recipient == old(self).fee_recipient,
            final (self).platform_fee_percent == old(self).platform_fee_percent,
            final (self).listing_count == old(self).listing_count,
            final (self).bump == old(self).bump,
            match r {
                Ok(out) => {
                    let i = listing_index(old(self).listings@, nft_mint);
                    let l = old(self).listings@[i];
                    &&& has_listing(old(self).listings@, nft_mint)
                    &&& l.active
                    &&& buyer != l.seller
                    &&& buyer_balance >= l.price
                    &&& final (self).listings@ == old(self).listings@.update(
                        i,
                        (Listing { active: false, ..l }),
                    )
                    &&& out.platform_fee == fee_of(l.price, old(self).platform_fee_percent)
                    &&& out.seller_amount + out.platform_fee == l.price
                    &&& out.event == (NFTSold {
                        listing_id: l.listing_id,
                        nft_mint,
                        seller: l.seller,
                        buyer,
                        price: l.price,
                    })
                },
                Err(e) => {
                    let i = listing_index(old(self).listings@, nft_mint);
                    let l = old(self).listings@[i];
                    let found = has_listing(old(self).listings@, nft_mint);
                    &&& *final (self) == *old(self)
                    &&& (e == MarketplaceError::ListingNotFound <==> !found)
                    &&& (e == MarketplaceError::ListingNotActive <==> found && !l.active)
                    &&& (e == MarketplaceError::CannotBuyOwnNFT <==> found && l.active && buyer
                        == l.seller)
                    &&& (e == MarketplaceError::InsufficientFunds <==> found && l.active && buyer
                        != l.seller && buyer_balance < l.price)
                    &&& (e == MarketplaceError::ListingNotFound || e
                        == MarketplaceError::ListingNotActive || e
                        == MarketplaceError::CannotBuyOwnNFT || e
                        == MarketplaceError::InsufficientFunds)
                },
            },
    {
        let idx = match self.find_listing(&nft_mint) {
            Some(i) => i,
            None => {
                return Err(MarketplaceError::ListingNotFound);
            },
        };
        let listing = self.listings[idx];
        if !listing.active {
            return Err(MarketplaceError::ListingNotActive);
        }
        if buyer == listing.seller {
            return Err(MarketplaceError::CannotBuyOwnNFT);
        }
        if buyer_balance < listing.price {
            return Err(MarketplaceError::InsufficientFunds);
        }

        let platform_fee = compute_fee(listing.price, self.platform_fee_percent);
        let seller_amount = listing.price - platform_fee;

        let retired = Listing { active: false, ..listing };
        vstd::pervasive::VecAdditionalExecFns::set(&mut self.listings, idx, retired);

        Ok(
            SaleOutcome {
                event: NFTSold {
                    listing_id: listing.listing_id,
                    nft_mint,
                    seller: listing.seller,
                    buyer,
                    price: listing.price,
                },
                seller_amount,
                platform_fee,
            },
        )
    }

    /// Cancel a listing. Only the stored seller may cancel; the host
    /// returns the escrowed asset unit to the seller. Retires the listing.
    pub fn cancel_listing(&mut self, caller: Identity, nft_mint: Identity) -> (r: Result<
        ListingCancelled,
        MarketplaceError,
    >)
        requires
            old(self).wf(),
        ensures
            final (self).wf(),
            final (self).authority == old(self).authority,
            final (self).fee_recipient == old(self).fee_recipient,
            final (self).platform_fee_percent == old(self).platform_fee_percent,
            final (self).listing_count == old(self).listing_count,
            final (self).bump == old(self).bump,
            match r {
                Ok(ev) => {
                    let i = listing_index(old(self).listings@, nft_mint);
                    let l = old(self).listings@[i];
                    &&& has_listing(old(self).listings@, nft_mint)
                    &&& caller == l.seller
                    &&& l.active
                    &&& final (self).listings@ == old(self).listings@.update(
                        i,
                        (Listing { active: false, ..l }),
                    )
                    &&& ev == (ListingCancelled { listing_id: l.listing_id })
                },
                Err(e) => {
                    let i = listing_index(old(self).listings@, nft_mint);
                    let l = old(self).listings@[i];
                    let found = has_listing(old(self).listings@, nft_mint);
                    &&& *final (self) == *old(self)
                    &&& (e == MarketplaceError::ListingNotFound <==> !found)
                    &&& (e == MarketplaceError::Unauthorized <==> found && caller != l.seller)
                    &&& (e == MarketplaceError::ListingNotActive <==> found && caller == l.seller
                        && !l.active)
                    &&& (e == MarketplaceError::ListingNotFound || e
                        == MarketplaceError::Unauthorized || e == MarketplaceError::ListingNotActive)
                },
            },
    {
        let idx = match self.find_listing(&nft_mint) {
            Some(i) => i,
            None => {
                return Err(MarketplaceError::ListingNotFound);
            },
        };
        let listing = self.listings[idx];
        if caller != listing.seller {
            return Err(MarketplaceError::Unauthorized);
        }
        if !listing.active {
            return Err(MarketplaceError::ListingNotActive);
        }
        let retired = Listing { active: false, ..listing };
        vstd::pervasive::VecAdditionalExecFns::set(&mut self.listings, idx, retired);
        Ok(ListingCancelled { listing_id: listing.listing_id })
    }

    /// Update the price of an active listing. Only the stored seller may;
    /// the new price must be positive. No leg moves.
    pub fn update_price(&mut self, caller: Identity, nft_mint: Identity, new_price: u64) -> (r:
        Result<(), MarketplaceError>)
        requires
            old(self).wf(),
        ensures
            final (self).wf(),
            final (self).authority == old(self).authority,
            final (self).fee_recipient == old(self).fee_recipient,
            final (self).platform_fee_percent == old(self).platform_fee_percent,
            final (self).listing_count == old(self).listing_count,
            final (self).bump == old(self).bump,
            match r {
                Ok(u) => {
                    let i = listing_index(old(self).listings@, nft_mint);
                    let l = old(self).listings@[i];
                    &&& has_listing(old(self).listings@, nft_mint)
                    &&& caller == l.seller
                    &&& new_price > 0
                    &&& l.active
                    &&& final (self).listings@ == old(self).listings@.update(
                        i,
                        (Listing { price: new_price, ..l }),
                    )
                },
                Err(e) => {
                    let i = listing_index(old(self).listings@, nft_mint);
                    let l = old(self).listings@[i];
                    let found = has_listing(old(self).listings@, nft_mint);
                    &&& *final (self) == *old(self)
                    &&& (e == MarketplaceError::ListingNotFound <==> !found)
                    &&& (e == MarketplaceError::Unauthorized <==> found && caller != l.seller)
                    &&& (e == MarketplaceError::InvalidPrice <==> found && caller == l.seller
                        && new_price == 0)
                    &&& (e == MarketplaceError::ListingNotActive <==> found && caller == l.seller
                        && new_price > 0 && !l.active)
                    &&& (e == MarketplaceError::ListingNotFound || e
                        == MarketplaceError::Unauthorized || e == MarketplaceError::InvalidPrice
                        || e == MarketplaceError::ListingNotActive)
                },
            },
    {
        let idx = match self.find_listing(&nft_mint) {
            Some(i) => i,
            None => {
                return Err(MarketplaceError::ListingNotFound);
            },
        };
        let listing = self.listings[idx];
        if caller != listing.seller {
            return Err(MarketplaceError::Unauthorized);
        }
        if new_price == 0 {
            return Err(MarketplaceError::InvalidPrice);
        }
        if !listing.active {
            return Err(MarketplaceError::ListingNotActive);
        }
        let updated = Listing { price: new_price, ..listing };
        vstd::pervasive::VecAdditionalExecFns::set(&mut self.listings, idx, updated);
        Ok(())
    }

    /// Set the platform fee. Admin only; rejected above 1000 basis points.
    pub fn set_platform_fee(&mut self, caller: Identity, new_fee: u16) -> (r: Result<
        (),
        MarketplaceError,
    >)
        requires
            old(self).wf(),
        ensures
            final (self).wf(),
            final (self).authority == old(self).authority,
            final (self).fee_recipient == old(self).fee_recipient,
            final (self).listing_count == old(self).listing_count,
            final (self).bump == old(self).bump,
            final (self).listings@ == old(self).listings@,
            match r {
                Ok(u) => {
                    &&& caller == old(self).authority
                    &&& new_fee <= 1000
                    &&& final (self).platform_fee_percent == new_fee
                },
                Err(e) => {
                    &&& *final (self) == *old(self)
                    &&& (e == MarketplaceError::Unauthorized <==> caller != old(self).authority)
                    &&& (e == MarketplaceError::FeeTooHigh <==> caller == old(self).authority
                        && new_fee > 1000)
                    &&& (e == MarketplaceError::Unauthorized || e == MarketplaceError::FeeTooHigh)
                },
            },
    {
        if caller != self.authority {
            return Err(MarketplaceError::Unauthorized);
        }
        if new_fee > 1000 {
            return Err(MarketplaceError::FeeTooHigh);
        }
        self.platform_fee_percent = new_fee;
        Ok(())
    }

    /// Set the fee recipient. Admin only.
    pub fn set_fee_recipient(&mut self, caller: Identity, new_recipient: Identity) -> (r: Result<
        (),
        MarketplaceError,
    >)
        requires
            old(self).wf(),
        ensures
            final (self).wf(),
            final (self).authority == old(self).authority,
            final (self).platform_fee_percent == old(self).platform_fee_percent,
            final (self).listing_count == old(self).listing_count,
            final (self).bump == old(self).bump,
            final (self).listings@ == old(self).listings@,
            match r {
                Ok(u) => caller == old(self).authority && final (self).fee_recipient
                    == new_recipient,
                Err(e) => {
                    &&& *final (self) == *old(self)
                    &&& e == MarketplaceError::Unauthorized
                    &&& caller != old(self).authority
                },
            },
    {
        if caller != self.authority {
            return Err(MarketplaceError::Unauthorized);
        }
        self.fee_recipient = new_recipient;
        Ok(())
    }

    /// The derived custody identity and bump nonce of the listing slot for
    /// an asset: the address that holds the escrowed unit, derivable only
    /// from the listing tag, the asset identity and the program identity.
    pub fn listing_address(program: &Identity, nft_mint: &Identity) -> (r: Option<(Identity, u8)>)
        ensures
            match r {
                Some(p) => pda_of(LISTING_TAG, nft_mint@, program@) == Some((p.0@, p.1)),
                None => pda_of(LISTING_TAG, nft_mint@, program@) is None,
            },
    {
        let disc = nft_mint.to_vec();
        crate::custody::find_derived_address(LISTING_TAG, &disc, program)
    }
}

/// The platform fee in 64 bits. The product is widened before the division
/// so it cannot overflow; a fee of at most 10000 basis points never
/// exceeds the price.
fn compute_fee(price: u64, fee_bp: u16) -> (r: u64)
    requires
        fee_bp <= 10000,
    ensures
        r == fee_of(price, fee_bp),
        r <= price,
{
    proof {
        lemma_fee_bounded(price, fee_bp);
        assert((price as int) * (fee_bp as int) <= (u64::MAX as int) * 10000) by (nonlinear_arith)
            requires
                price <= u64::MAX,
                fee_bp <= 10000,
        ;
    }
    let prod: u128 = (price as u128) * (fee_bp as u128);
    let fee: u128 = prod / 10000;
    fee as u64
}

/// The fee is a fraction of the price: for any price and any fee of at
/// most 10000 basis points, the truncated fee lies between zero and the
/// price.
pub proof fn lemma_fee_bounded(price: u64, fee_bp: u16)
    requires
        fee_bp <= 10000,
    ensures
        0 <= fee_of(price, fee_bp) <= price,
{
    assert(0 <= (price as int) * (fee_bp as int) <= (price as int) * 10000) by (nonlinear_arith)
        requires
            0 <= price,
            0 <= fee_bp <= 10000,
    ;
    vstd::arithmetic::div_mod::lemma_div_is_ordered(
        (price as int) * (fee_bp as int),
        (price as int) * 10000,
        10000,
    );
    vstd::arithmetic::div_mod::lemma_div_by_multiple(price as int, 10000);
    vstd::arithmetic::div_mod::lemma_div_pos_is_pos((price as int) * (fee_bp as int), 10000);
}

/// Fee conservation: the seller amount and the platform fee sum back to
/// the price exactly; the single truncation of the fee division leaks
/// nothing to either party.
pub proof fn lemma_fee_conservation(price: u64, fee_bp: u16)
    requires
        fee_bp <= 10000,
    ensures
        fee_of(price, fee_bp) + (price - fee_of(price, fee_bp)) == price,
        0 <= fee_of(price, fee_bp) <= price,
{
    lemma_fee_bounded(price, fee_bp);
}

/// At most one listing slot per asset: in a well-formed marketplace, two
/// slots that carry the same asset are the same slot. In particular at
/// most one active listing per asset exists at any time, and creating a
/// second slot for a listed asset always fails.
pub proof fn lemma_single_entry_per_asset(s: MarketplaceState, i: int, j: int)
    requires
        s.wf(),
        0 <= i < s.listings@.len(),
        0 <= j < s.listings@.len(),
        s.listings@[i].nft_mint == s.listings@[j].nft_mint,
    ensures
        i == j,
{
    if i < j {
        assert(s.listings@[i].nft_mint != s.listings@[j].nft_mint);
    }
    if j < i {
        assert(s.listings@[j].nft_mint != s.listings@[i].nft_mint);
    }
}

} // verus!
