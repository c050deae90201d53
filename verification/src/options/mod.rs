mod gamut;
mod luminosity;
mod seed;

pub use self::gamut::Gamut;
pub use self::luminosity::Luminosity;
pub use self::seed::signed_seed;
pub use self::seed::text_hash_writes;
pub use self::seed::text_seed;
pub use self::seed::Seed;
