//! The registry-gated unique-item issuance service: mint a unique item
//! against an external patent identifier, at most once per identifier.
//!
//! The identifier is normalized (whitespace and dashes dropped, ASCII
//! letters uppercased) and hashed; the digest is the discriminant of a
//! create-once registry record. A retired or sold item's identifier can
//! never be reissued: the record persists forever. Public minting pays
//! the admin-set price to the authority; the descriptive record of the
//! item itself is created by the external metadata service.

use vstd::prelude::*;
use vstd::string::StrSliceExecFns;

use crate::custody::pda_of;
use crate::custody::sha256_of_chars;
use crate::identity::Identity;

verus! {

/// Namespace tag of the issuance service's configuration record.
pub const PATENT_STATE_TAG: u8 = 3;

/// The issuance service's configuration record, its record balance, and
/// every registry record ever created, keyed by the identifier digest.
#[derive(Debug)]
pub struct ProgramState {
    pub authority: Identity,
    pub minting_price: u64,
    pub platform_fee_percentage: u16,
    pub next_token_id: u64,
    pub bump: u8,
    /// The currency balance of the service's own record, credited by the
    /// host and drawn down by withdrawals.
    pub balance: u64,
    pub registry: Vec<PatentRegistry>,
}

/// One registry record: proof that a unique item was issued for this
/// identifier. Never deleted, never recreated.
#[derive(Debug)]
pub struct PatentRegistry {
    pub patent_hash: [u8; 32],
    pub token_id: u64,
    pub owner: Identity,
    pub patent_number: String,
}

/// Notification of a completed issuance.
#[derive(Debug)]
pub struct PatentMinted {
    pub owner: Identity,
    pub token_id: u64,
    pub patent_number: String,
    pub mint: Identity,
}

/// Notification of a price change.
#[derive(Clone, Copy, Debug)]
pub struct MintingPriceUpdated {
    pub old_price: u64,
    pub new_price: u64,
}

/// Notification of a completed withdrawal.
#[derive(Clone, Copy, Debug)]
pub struct FeeWithdrawn {
    pub recipient: Identity,
    pub amount: u64,
}

#[derive(Clone, Copy, Debug, PartialEq, Eq, Structural)]
pub enum PatentNFTError {
    InsufficientPayment,
    PatentAlreadyMinted,
    Unauthorized,
    InvalidPatentNumber,
    InvalidName,
    InvalidSymbol,
    InvalidUri,
    TokenIdOverflow,
    InvalidAmount,
    InsufficientBalance,
    MathOverflow,
}

/// The characters the normalization drops: the Unicode whitespace
/// characters and the dash.
pub open spec fn dropped_char(c: char) -> bool {
    ||| c == ' '
    ||| c == '\t'
    ||| c == '\n'
    ||| c == '\u{0b}'
    ||| c == '\u{0c}'
    ||| c == '\r'
    ||| c == '\u{85}'
    ||| c == '\u{a0}'
    ||| c == '\u{1680}'
    ||| c == '\u{2000}'
    ||| c == '\u{2001}'
    ||| c == '\u{2002}'
    ||| c == '\u{2003}'
    ||| c == '\u{2004}'
    ||| c == '\u{2005}'
    ||| c == '\u{2006}'
    ||| c == '\u{2007}'
    ||| c == '\u{2008}'
    ||| c == '\u{2009}'
    ||| c == '\u{200a}'
    ||| c == '\u{2028}'
    ||| c == '\u{2029}'
    ||| c == '\u{202f}'
    ||| c == '\u{205f}'
    ||| c == '\u{3000}'
    ||| c == '-'
}

/// An ASCII lowercase letter mapped to its uppercase form; every other
/// character kept as it is.
pub open spec fn upper_char(c: char) -> char {
    match c {
        'a' => 'A',
        'b' => 'B',
        'c' => 'C',
        'd' => 'D',
        'e' => 'E',
        'f' => 'F',
        'g' => 'G',
        'h' => 'H',
        'i' => 'I',
        'j' => 'J',
        'k' => 'K',
        'l' => 'L',
        'm' => 'M',
        'n' => 'N',
        'o' => 'O',
        'p' => 'P',
        'q' => 'Q',
        'r' => 'R',
        's' => 'S',
        't' => 'T',
        'u' => 'U',
        'v' => 'V',
        'w' => 'W',
        'x' => 'X',
        'y' => 'Y',
        'z' => 'Z',
        _ => c,
    }
}

/// The normalized form of an identifier: whitespace and dashes dropped,
/// ASCII letters uppercased, everything else kept in order.
pub open spec fn normalize_spec(s: Seq<char>) -> Seq<char>
    decreases s.len(),
{
    if s.len() == 0 {
        Seq::empty()
    } else {
        let rest = normalize_spec(s.drop_last());
        if dropped_char(s.last()) {
            rest
        } else {
            rest.push(upper_char(s.last()))
        }
    }
}

/// The discriminant of an identifier: the SHA-256 digest of its
/// normalized form. Two spellings of the same identifier, however spaced,
/// dashed or cased, share one discriminant.
pub open spec fn patent_digest(s: Seq<char>) -> Seq<u8> {
    sha256_of_chars(normalize_spec(s))
}

/// Whether some registry record carries this identifier digest.
pub open spec fn has_patent(registry: Seq<PatentRegistry>, digest: Seq<u8>) -> bool {
    exists|i: int| 0 <= i < registry.len() && registry[i].patent_hash@ == digest
}

/// The index of the registry record of this digest; well defined whenever
/// the records are well formed, because at most one record per digest
/// exists.
pub open spec fn patent_index(registry: Seq<PatentRegistry>, digest: Seq<u8>) -> int {
    choose|i: int| 0 <= i < registry.len() && registry[i].patent_hash@ == digest
}

/// What an issuance decides once the caller is authenticated, in the
/// order the checks run: either the token id to assign, or the error that
/// aborts the whole operation. `payment_due` is zero for admin issuance.
pub open spec fn mint_result(
    s: ProgramState,
    patent_number: Seq<char>,
    name: Seq<char>,
    symbol: Seq<char>,
    uri: Seq<char>,
    payer_balance: u64,
    payment_due: u64,
) -> Result<u64, PatentNFTError> {
    if patent_number.len() == 0 || patent_number.len() > 50 {
        Err(PatentNFTError::InvalidPatentNumber)
    } else if name.len() == 0 || name.len() > 32 {
        Err(PatentNFTError::InvalidName)
    } else if symbol.len() == 0 || symbol.len() > 10 {
        Err(PatentNFTError::InvalidSymbol)
    } else if uri.len() == 0 || uri.len() > 200 {
        Err(PatentNFTError::InvalidUri)
    } else if has_patent(s.registry@, patent_digest(patent_number)) {
        Err(PatentNFTError::PatentAlreadyMinted)
    } else if s.next_token_id == u64::MAX {
        Err(PatentNFTError::TokenIdOverflow)
    } else if payer_balance < payment_due {
        Err(PatentNFTError::InsufficientPayment)
    } else {
        Ok(s.next_token_id)
    }
}

impl ProgramState {
    /// Well-formedness: no two registry records carry the same digest.
    pub open spec fn wf(self) -> bool {
        forall|i: int, j: int|
            0 <= i < j < self.registry.len() ==> self.registry[i].patent_hash@
                != self.registry[j].patent_hash@
    }

    /// Bootstrap the issuance service. The caller becomes the admin
    /// authority; token ids are assigned from one upwards.
    pub fn initialize(
        authority: Identity,
        minting_price: u64,
        platform_fee_percentage: u16,
        bump: u8,
    ) -> (state: ProgramState)
        ensures
            state.wf(),
            state.authority == authority,
            state.minting_price == minting_price,
            state.platform_fee_percentage == platform_fee_percentage,
            state.next_token_id == 1,
            state.bump == bump,
            state.balance == 0,
            state.registry@ == Seq::<PatentRegistry>::empty(),
    {
        ProgramState {
            authority,
            minting_price,
            platform_fee_percentage,
            next_token_id: 1,
            bump,
            balance: 0,
            registry: Vec::new(),
        }
    }

    /// The registry record of this digest, if any.
    fn find_patent(&self, digest: &[u8; 32]) -> (r: Option<usize>)
        requires
            self.wf(),
        ensures
            match r {
                Some(i) => {
                    &&& i < self.registry@.len()
                    &&& self.registry@[i as int].patent_hash@ == digest@
                    &&& i as int == patent_index(self.registry@, digest@)
                },
                None => !has_patent(self.registry@, digest@),
            },
    {
        let n = self.registry.len();
        let mut i: usize = 0;
        while i < n
            invariant
                self.wf(),
                n == self.registry@.len(),
                i <= n,
                forall|j: int| 0 <= j < i ==> self.registry@[j].patent_hash@ != digest@,
            decreases n - i,
        {
            if bytes32_equal(&self.registry[i].patent_hash, digest) {
                proof {
                    let w = patent_index(self.registry@, digest@);
                    assert(0 <= w < self.registry@.len() && self.registry@[w].patent_hash@
                        == digest@);
                    if w != i as int {
                        assert(false);
                    }
                }
                return Some(i);
            }
            i = i + 1;
        }
        None
    }

    /// Issue a unique item for an identifier, open to any payer. The
    /// price moves from the payer to the authority, the identifier's
    /// create-once record is written, and the host asks the external
    /// metadata service for the item's descriptive record.
    pub fn mint_patent_nft(
        &mut self,
        payer: Identity,
        payer_balance: u64,
        patent_number: String,
        name: String,
        symbol: String,
        uri: String,
        mint: Identity,
    ) -> (r: Result<PatentMinted, PatentNFTError>)
        requires
            old(self).wf(),
        ensures
            final (self).wf(),
            final (self).authority == old(self).authority,
            final (self).minting_price == old(self).minting_price,
            final (self).platform_fee_percentage == old(self).platform_fee_percentage,
            final (self).bump == old(self).bump,
            final (self).balance == old(self).balance,
            final (self).next_token_id >= old(self).next_token_id,
            match r {
                Ok(ev) => {
                    &&& mint_result(
                        *old(self),
                        patent_number@,
                        name@,
                        symbol@,
                        uri@,
                        payer_balance,
                        old(self).minting_price,
                    ) == Ok::<u64, PatentNFTError>(ev.token_id)
                    &&& ev.token_id == old(self).next_token_id
                    &&& final (self).next_token_id == old(self).next_token_id + 1
                    &&& final (self).registry@ == old(self).registry@.push(
                        final (self).registry@.last(),
                    )
                    &&& final (self).registry@.last().patent_hash@ == patent_digest(
                        patent_number@,
                    )
                    &&& final (self).registry@.last().token_id == old(self).next_token_id
                    &&& final (self).registry@.last().owner == payer
                    &&& final (self).registry@.last().patent_number == patent_number
                    &&& ev == (PatentMinted {
                        owner: payer,
                        token_id: old(self).next_token_id,
                        patent_number,
                        mint,
                    })
                },
                Err(e) => {
                    &&& mint_result(
                        *old(self),
                        patent_number@,
                        name@,
                        symbol@,
                        uri@,
                        payer_balance,
                        old(self).minting_price,
                    ) == Err::<u64, PatentNFTError>(e)
                    &&& *final (self) == *old(self)
                },
            },
    {
        if patent_number.as_str().unicode_len() == 0 || patent_number.as_str().unicode_len() > 50 {
            return Err(PatentNFTError::InvalidPatentNumber);
        }
        if name.as_str().unicode_len() == 0 || name.as_str().unicode_len() > 32 {
            return Err(PatentNFTError::InvalidName);
        }
        if symbol.as_str().unicode_len() == 0 || symbol.as_str().unicode_len() > 10 {
            return Err(PatentNFTError::InvalidSymbol);
        }
        if uri.as_str().unicode_len() == 0 || uri.as_str().unicode_len() > 200 {
            return Err(PatentNFTError::InvalidUri);
        }
        let patent_hash = normalize_patent_id(patent_number.as_str());
        if self.find_patent(&patent_hash).is_some() {
            return Err(PatentNFTError::PatentAlreadyMinted);
        }
        let token_id = self.next_token_id;
        let next = match self.next_token_id.checked_add(1) {
            Some(v) => v,
            None => {
                return Err(PatentNFTError::TokenIdOverflow);
            },
        };
        if payer_balance < self.minting_price {
            return Err(PatentNFTError::InsufficientPayment);
        }
        self.next_token_id = next;
        let entry = PatentRegistry {
            patent_hash,
            token_id,
            owner: payer,
            patent_number: patent_number.clone(),
        };
        self.registry.push(entry);
        Ok(PatentMinted { owner: payer, token_id, patent_number, mint })
    }

    /// Issue a unique item to a chosen recipient. Admin only; no payment
    /// moves. The identifier's create-once record is written all the
    /// same.
    pub fn mint_patent_admin(
        &mut self,
        caller: Identity,
        recipient: Identity,
        patent_number: String,
        name: String,
        symbol: String,
        uri: String,
        mint: Identity,
    ) -> (r: Result<PatentMinted, PatentNFTError>)
        requires
            old(self).wf(),
        ensures
            final (self).wf(),
            final (self).authority == old(self).authority,
            final (self).minting_price == old(self).minting_price,
            final (self).platform_fee_percentage == old(self).platform_fee_percentage,
            final (self).bump == old(self).bump,
            final (self).balance == old(self).balance,
            final (self).next_token_id >= old(self).next_token_id,
            match r {
                Ok(ev) => {
                    &&& caller == old(self).authority
                    &&& mint_result(
                        *old(self),
                        patent_number@,
                        name@,
                        symbol@,
                        uri@,
                        0,
                        0,
                    ) == Ok::<u64, PatentNFTError>(ev.token_id)
                    &&& ev.token_id == old(self).next_token_id
                    &&& final (self).next_token_id == old(self).next_token_id + 1
                    &&& final (self).registry@ == old(self).registry@.push(
                        final (self).registry@.last(),
                    )
                    &&& final (self).registry@.last().patent_hash@ == patent_digest(
                        patent_number@,
                    )
                    &&& final (self).registry@.last().token_id == old(self).next_token_id
                    &&& final (self).registry@.last().owner == recipient
                    &&& final (self).registry@.last().patent_number == patent_number
                    &&& ev == (PatentMinted {
                        owner: recipient,
                        token_id: old(self).next_token_id,
                        patent_number,
                        mint,
                    })
                },
                Err(e) => {
                    &&& *final (self) == *old(self)
                    &&& (e == PatentNFTError::Unauthorized <==> caller != old(self).authority)
                    &&& (caller == old(self).authority ==> mint_result(
                        *old(self),
                        patent_number@,
                        name@,
                        symbol@,
                        uri@,
                        0,
                        0,
                    ) == Err::<u64, PatentNFTError>(e))
                },
            },
    {
        if caller != self.authority {
            return Err(PatentNFTError::Unauthorized);
        }
        if patent_number.as_str().unicode_len() == 0 || patent_number.as_str().unicode_len() > 50 {
            return Err(PatentNFTError::InvalidPatentNumber);
        }
        if name.as_str().unicode_len() == 0 || name.as_str().unicode_len() > 32 {
            return Err(PatentNFTError::InvalidName);
        }
        if symbol.as_str().unicode_len() == 0 || symbol.as_str().unicode_len() > 10 {
            return Err(PatentNFTError::InvalidSymbol);
        }
        if uri.as_str().unicode_len() == 0 || uri.as_str().unicode_len() > 200 {
            return Err(PatentNFTError::InvalidUri);
        }
        let patent_hash = normalize_patent_id(patent_number.as_str());
        if self.find_patent(&patent_hash).is_some() {
            return Err(PatentNFTError::PatentAlreadyMinted);
        }
        let token_id = self.next_token_id;
        let next = match self.next_token_id.checked_add(1) {
            Some(v) => v,
            None => {
                return Err(PatentNFTError::TokenIdOverflow);
            },
        };
        self.next_token_id = next;
        let entry = PatentRegistry {
            patent_hash,
            token_id,
            owner: recipient,
            patent_number: patent_number.clone(),
        };
        self.registry.push(entry);
        Ok(PatentMinted { owner: recipient, token_id, patent_number, mint })
    }

    /// Set the issuance price. Admin only.
    pub fn update_minting_price(&mut self, caller: Identity, new_price: u64) -> (r: Result<
        MintingPriceUpdated,
        PatentNFTError,
    >)
        requires
            old(self).wf(),
        ensures
            final (self).wf(),
            final (self).authority == old(self).authority,
            final (self).platform_fee_percentage == old(self).platform_fee_percentage,
            final (self).next_token_id == old(self).next_token_id,
            final (self).bump == old(self).bump,
            final (self).balance == old(self).balance,
            final (self).registry@ == old(self).registry@,
            match r {
                Ok(ev) => {
                    &&& caller == old(self).authority
                    &&& final (self).minting_price == new_price
                    &&& ev == (MintingPriceUpdated {
                        old_price: old(self).minting_price,
                        new_price,
                    })
                },
                Err(e) => {
                    &&& *final (self) == *old(self)
                    &&& e == PatentNFTError::Unauthorized
                    &&& caller != old(self).authority
                },
            },
    {
        if caller != self.authority {
            return Err(PatentNFTError::Unauthorized);
        }
        let old_price = self.minting_price;
        self.minting_price = new_price;
        Ok(MintingPriceUpdated { old_price, new_price })
    }

    /// Credit the service's record with currency the host received for
    /// it: record creation funding or later deposits.
    pub fn fund(&mut self, amount: u64) -> (r: Result<(), PatentNFTError>)
        requires
            old(self).wf(),
        ensures
            final (self).wf(),
            *final (self) == (ProgramState { balance: final (self).balance, ..*old(self) }),
            match r {
                Ok(u) => {
                    &&& old(self).balance + amount <= u64::MAX
                    &&& final (self).balance == old(self).balance + amount
                },
                Err(e) => {
                    &&& *final (self) == *old(self)
                    &&& e == PatentNFTError::MathOverflow
                    &&& old(self).balance + amount > u64::MAX
                },
            },
    {
        match self.balance.checked_add(amount) {
            Some(v) => {
                self.balance = v;
                Ok(())
            },
            None => Err(PatentNFTError::MathOverflow),
        }
    }

    /// Withdraw accumulated currency from the service's record. Admin
    /// only; the withdrawal must leave at least the reserved minimum
    /// balance the host requires of the record at call time.
    pub fn withdraw(&mut self, caller: Identity, amount: u64, min_balance: u64) -> (r: Result<
        FeeWithdrawn,
        PatentNFTError,
    >)
        requires
            old(self).wf(),
        ensures
            final (self).wf(),
            final (self).authority == old(self).authority,
            final (self).minting_price == old(self).minting_price,
            final (self).platform_fee_percentage == old(self).platform_fee_percentage,
            final (self).next_token_id == old(self).next_token_id,
            final (self).bump == old(self).bump,
            final (self).registry@ == old(self).registry@,
            final (self).balance <= old(self).balance,
            match r {
                Ok(ev) => {
                    &&& caller == old(self).authority
                    &&& amount > 0
                    &&& amount + min_balance <= u64::MAX
                    &&& old(self).balance >= amount + min_balance
                    &&& final (self).balance == old(self).balance - amount
                    &&& final (self).balance >= min_balance
                    &&& ev == (FeeWithdrawn { recipient: caller, amount })
                },
                Err(e) => {
                    &&& *final (self) == *old(self)
                    &&& (e == PatentNFTError::Unauthorized <==> caller != old(self).authority)
                    &&& (e == PatentNFTError::InvalidAmount <==> caller == old(self).authority
                        && amount == 0)
                    &&& (e == PatentNFTError::MathOverflow <==> caller == old(self).authority
                        && amount > 0 && amount + min_balance > u64::MAX)
                    &&& (e == PatentNFTError::InsufficientBalance <==> caller == old(
                        self,
                    ).authority && amount > 0 && amount + min_balance <= u64::MAX && old(
                        self,
                    ).balance < amount + min_balance)
                    &&& (e == PatentNFTError::Unauthorized || e == PatentNFTError::InvalidAmount
                        || e == PatentNFTError::MathOverflow || e
                        == PatentNFTError::InsufficientBalance)
                },
            },
    {
        if caller != self.authority {
            return Err(PatentNFTError::Unauthorized);
        }
        if amount == 0 {
            return Err(PatentNFTError::InvalidAmount);
        }
        let needed = match amount.checked_add(min_balance) {
            Some(v) => v,
            None => {
                return Err(PatentNFTError::MathOverflow);
            },
        };
        if self.balance < needed {
            return Err(PatentNFTError::InsufficientBalance);
        }
        self.balance = self.balance - amount;
        Ok(FeeWithdrawn { recipient: caller, amount })
    }

    /// The derived custody identity and bump nonce of the issuance
    /// service's configuration record.
    pub fn state_address(program: &Identity) -> (r: Option<(Identity, u8)>)
        ensures
            match r {
                Some(p) => pda_of(PATENT_STATE_TAG, Seq::<u8>::empty(), program@) == Some(
                    (p.0@, p.1),
                ),
                None => pda_of(PATENT_STATE_TAG, Seq::<u8>::empty(), program@) is None,
            },
    {
        let disc: Vec<u8> = Vec::new();
        crate::custody::find_derived_address(PATENT_STATE_TAG, &disc, program)
    }
}

/// Whether two digests are the same bytes.
fn bytes32_equal(a: &[u8; 32], b: &[u8; 32]) -> (r: bool)
    ensures
        r == (a@ == b@),
{
    let mut i: usize = 0;
    while i < 32
        invariant
            i <= 32,
            forall|j: int| 0 <= j < i ==> a@[j] == b@[j],
        decreases 32 - i,
    {
        if a[i] != b[i] {
            return false;
        }
        i = i + 1;
    }
    proof {
        assert(a@ =~= b@);
    }
    true
}

/// Whether the normalization drops this character.
fn dropped_char_exec(c: char) -> (r: bool)
    ensures
        r == dropped_char(c),
{
    c == ' ' || c == '\t' || c == '\n' || c == '\u{0b}' || c == '\u{0c}' || c == '\r' || c
        == '\u{85}' || c == '\u{a0}' || c == '\u{1680}' || c == '\u{2000}' || c == '\u{2001}' || c
        == '\u{2002}' || c == '\u{2003}' || c == '\u{2004}' || c == '\u{2005}' || c == '\u{2006}'
        || c == '\u{2007}' || c == '\u{2008}' || c == '\u{2009}' || c == '\u{200a}' || c
        == '\u{2028}' || c == '\u{2029}' || c == '\u{202f}' || c == '\u{205f}' || c == '\u{3000}'
        || c == '-'
}

/// An ASCII lowercase letter uppercased; every other character unchanged.
fn upper_char_exec(c: char) -> (r: char)
    ensures
        r == upper_char(c),
{
    match c {
        'a' => 'A',
        'b' => 'B',
        'c' => 'C',
        'd' => 'D',
        'e' => 'E',
        'f' => 'F',
        'g' => 'G',
        'h' => 'H',
        'i' => 'I',
        'j' => 'J',
        'k' => 'K',
        'l' => 'L',
        'm' => 'M',
        'n' => 'N',
        'o' => 'O',
        'p' => 'P',
        'q' => 'Q',
        'r' => 'R',
        's' => 'S',
        't' => 'T',
        'u' => 'U',
        'v' => 'V',
        'w' => 'W',
        'x' => 'X',
        'y' => 'Y',
        'z' => 'Z',
        _ => c,
    }
}

/// The discriminant of an identifier: drop whitespace and dashes,
/// uppercase ASCII letters, and hash the normalized characters.
pub fn normalize_patent_id(patent_number: &str) -> (r: [u8; 32])
    ensures
        r@ == patent_digest(patent_number@),
{
    let n = patent_number.unicode_len();
    let mut chars: Vec<char> = Vec::new();
    let mut i: usize = 0;
    while i < n
        invariant
            i <= n,
            n == patent_number@.len(),
            chars@ == normalize_spec(patent_number@.take(i as int)),
        decreases n - i,
    {
        let c = patent_number.get_char(i);
        if !dropped_char_exec(c) {
            chars.push(upper_char_exec(c));
        }
        proof {
            assert(patent_number@.take(i + 1).drop_last() =~= patent_number@.take(i as int));
            assert(patent_number@.take(i + 1).last() == patent_number@[i as int]);
        }
        i = i + 1;
    }
    proof {
        assert(patent_number@.take(n as int) =~= patent_number@);
    }
    crate::custody::hash_chars(&chars)
}

/// At most one registry record per identifier digest: in a well-formed
/// registry, two records that carry the same digest are the same record.
/// A retired item's identifier therefore can never be reissued: creation
/// fails whenever any record, live or not, carries the digest.
pub proof fn lemma_single_entry_per_patent(s: ProgramState, i: int, j: int)
    requires
        s.wf(),
        0 <= i < s.registry@.len(),
        0 <= j < s.registry@.len(),
        s.registry@[i].patent_hash@ == s.registry@[j].patent_hash@,
    ensures
        i == j,
{
    if i < j {
        assert(s.registry@[i].patent_hash@ != s.registry@[j].patent_hash@);
    }
    if j < i {
        assert(s.registry@[j].patent_hash@ != s.registry@[i].patent_hash@);
    }
}

} // verus!
