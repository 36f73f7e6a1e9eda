use vstd::prelude::*;

verus! {

/// A 32-byte account address, as the runtime hands it to the program.
#[derive(Clone, Copy, Debug)]
pub struct Address {
    pub bytes: [u8; 32],
}

impl View for Address {
    type V = Seq<u8>;

    open spec fn view(&self) -> Seq<u8> {
        self.bytes@
    }
}

impl DeepView for Address {
    type V = Seq<u8>;

    open spec fn deep_view(&self) -> Seq<u8> {
        self.bytes@
    }
}

impl Address {
    /// Wraps 32 raw bytes.
    pub fn new(bytes: [u8; 32]) -> (a: Address)
        ensures
            a@ == bytes@,
    {
        Address { bytes }
    }

    /// Whether two addresses name the same account.
    pub fn same(&self, other: &Address) -> (r: bool)
        ensures
            r == (self@ == other@),
    {
        let mut i: usize = 0;
        while i < 32
            invariant
                i <= 32,
                self@.len() == 32,
                other@.len() == 32,
                forall|j: int| 0 <= j < i ==> self@[j] == other@[j],
            decreases 32 - i,
        {
            if self.bytes[i] != other.bytes[i] {
                return false;
            }
            i = i + 1;
        }
        assert(self@ =~= other@);
        true
    }
}

/// The address of the Metaplex Core program, which keeps the assets that are
/// listed (`CoREENxT6tW1HoK8ypY1SxRMZTcVPm7R94rH4PZNhX7d`).
pub const MPL_CORE_ID: [u8; 32] = [
    175, 84, 171, 16, 189, 151, 165, 66, 160, 158, 247, 179, 152, 137, 221, 12, 211, 148, 164, 204,
    233, 223, 166, 205, 201, 126, 190, 45, 35, 91, 167, 72,
];

/// The address of the associated token account program
/// (`ATokenGPvbdGVxr1b2hvZbsiqW5xWH25efTNsLJA8knL`).
pub const ASSOCIATED_TOKEN_PROGRAM_ID: [u8; 32] = [
    140, 151, 37, 143, 78, 36, 137, 241, 187, 61, 16, 41, 20, 142, 13, 131, 11, 90, 19, 153, 218,
    255, 16, 132, 4, 142, 123, 216, 219, 233, 248, 89,
];

/// The bytes of a string, UTF-8 encoded.
pub open spec fn utf8_bytes(s: Seq<char>) -> Seq<u8> {
    vstd::utf8::encode_utf8(s)
}

/// A marketplace: who administers it, the fee it takes on every sale, and
/// the bump seeds of its own address, its treasury and its reward mint.
#[derive(Clone, Debug)]
pub struct MarketPlace {
    pub admin: Address,
    pub fee: u16,
    pub bump: u8,
    pub treasury_bump: u8,
    pub reward_bump: u8,
    pub name: String,
}

impl MarketPlace {
    /// The name as the bytes that seed the marketplace's address.
    pub open spec fn name_bytes(&self) -> Seq<u8> {
        utf8_bytes(self.name@)
    }

    /// What initialization guarantees of every marketplace: a fee within the
    /// whole price and a name short enough to seed an address.
    pub open spec fn wf(&self) -> bool {
        &&& self.fee <= 10_000
        &&& self.name_bytes().len() <= 32
    }
}

/// An asset put up for sale at `price` by `maker`.
#[derive(Clone, Copy, Debug)]
pub struct Listing {
    pub maker: Address,
    pub asset: Address,
    pub price: u64,
    pub solded: bool,
    pub bump: u8,
}

/// An offer of `price` lamports, held in a vault, for the asset of `listing`.
#[derive(Clone, Copy, Debug)]
pub struct Offer {
    pub listing: Address,
    pub offer_maker: Address,
    pub price: u64,
    pub accepted: bool,
    pub bump: u8,
    pub vault_bump: u8,
}

/// The space an account's data takes: an 8-byte type tag and the fields.
pub const DISCRIMINATOR_LEN: usize = 8;

/// Bytes of the marketplace's fields: the admin, the fee, three bumps and the
/// name with its 4-byte length prefix, at most 32 bytes long.
pub const MARKETPLACE_INIT_SPACE: usize = 73;

/// Bytes of a listing's fields.
pub const LISTING_INIT_SPACE: usize = 74;

/// Bytes of an offer's fields.
pub const OFFER_INIT_SPACE: usize = 75;

/// An account of the program: its address and its decoded data.
#[derive(Clone, Debug)]
pub struct Account<T> {
    pub key: Address,
    pub data: T,
}

/// An account owned by the system program, of which only the balance matters.
#[derive(Clone, Copy, Debug)]
pub struct SystemAccount {
    pub key: Address,
    pub lamports: u64,
}

/// A token mint: its address, its decimals and who may mint.
#[derive(Clone, Copy, Debug)]
pub struct MintAccount {
    pub key: Address,
    pub decimals: u8,
    pub mint_authority: Option<Address>,
}

/// What a token account holds that the constraints read: its mint, its
/// owner, and the token program that keeps it.
#[derive(Clone, Copy, Debug)]
pub struct TokenAccountState {
    pub mint: Address,
    pub owner: Address,
    pub owner_program: Address,
}

/// A token account, or the address at which one is yet to be created
/// (`state` is `None` while the system program still owns the address).
#[derive(Clone, Copy, Debug)]
pub struct TokenAccount {
    pub key: Address,
    pub state: Option<TokenAccountState>,
}

} // verus!
