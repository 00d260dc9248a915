//! Abilities a Pokémon may have.

use vstd::prelude::*;
use crate::enums::Enum;
use crate::repr::FromVeekun;

verus! {

/// A passive effect a Pokémon can have in battle.
#[derive(Clone, Copy, Debug, PartialEq, Eq, Structural, Hash)]
pub enum Ability {
    Stench,
    Drizzle,
    SpeedBoost,
    BattleArmor,
    Sturdy,
    Damp,
    Limber,
    SandVeil,
    Static,
    VoltAbsorb,
    WaterAbsorb,
    Oblivious,
    CloudNine,
    CompoundEyes,
    Insomnia,
    ColorChange,
    Immunity,
    FlashFire,
    ShieldDust,
    OwnTempo,
    SuctionCups,
    Intimidate,
    ShadowTag,
    RoughSkin,
    WonderGuard,
    Levitate,
    EffectSpore,
    Synchronize,
    ClearBody,
    NaturalCure,
    LightningRod,
    SereneGrace,
    SwiftSwim,
    Chlorophyll,
    Illuminate,
    Trace,
    HugePower,
    PoisonPoint,
    InnerFocus,
    MagmaArmor,
    WaterVeil,
    MagnetPull,
    Soundproof,
    RainDish,
    SandStream,
    Pressure,
    ThickFat,
    EarlyBird,
    FlameBody,
    RunAway,
    KeenEye,
    HyperCutter,
    Pickup,
    Truant,
    Hustle,
    CuteCharm,
    Plus,
    Minus,
    Forecast,
    StickyHold,
    ShedSkin,
    Guts,
    MarvelScale,
    LiquidOoze,
    Overgrow,
    Blaze,
    Torrent,
    Swarm,
    RockHead,
    Drought,
    ArenaTrap,
    VitalSpirit,
    WhiteSmoke,
    PurePower,
    ShellArmor,
    AirLock,
    TangledFeet,
    MotorDrive,
    Rivalry,
    Steadfast,
    SnowCloak,
    Gluttony,
    AngerPoint,
    Unburden,
    Heatproof,
    Simple,
    DrySkin,
    Download,
    IronFist,
    PoisonHeal,
    Adaptability,
    SkillLink,
    Hydration,
    SolarPower,
    QuickFeet,
    Normalize,
    Sniper,
    MagicGuard,
    NoGuard,
    Stall,
    Technician,
    LeafGuard,
    Klutz,
    MoldBreaker,
    SuperLuck,
    Aftermath,
    Anticipation,
    Forewarn,
    Unaware,
    TintedLens,
    Filter,
    SlowStart,
    Scrappy,
    StormDrain,
    IceBody,
    SolidRock,
    SnowWarning,
    HoneyGather,
    Frisk,
    Reckless,
    Multitype,
    FlowerGift,
    BadDreams,
    Pickpocket,
    SheerForce,
    Contrary,
    Unnerve,
    Defiant,
    Defeatist,
    CursedBody,
    Healer,
    FriendGuard,
    WeakArmor,
    HeavyMetal,
    LightMetal,
    Multiscale,
    ToxicBoost,
    FlareBoost,
    Harvest,
    Telepathy,
    Moody,
    Overcoat,
    PoisonTouch,
    Regenerator,
    BigPecks,
    SandRush,
    WonderSkin,
    Analytic,
    Illusion,
    Imposter,
    Infiltrator,
    Mummy,
    Moxie,
    Justified,
    Rattled,
    MagicBounce,
    SapSipper,
    Prankster,
    SandForce,
    IronBarbs,
    ZenMode,
    VictoryStar,
    Turboblaze,
    Teravolt,
}

impl Enum for Ability {
    open spec fn spec_values() -> Seq<Ability> {
        let s = Seq::<Ability>::empty();
        let s = s.push(Ability::Stench);
        let s = s.push(Ability::Drizzle);
        let s = s.push(Ability::SpeedBoost);
        let s = s.push(Ability::BattleArmor);
        let s = s.push(Ability::Sturdy);
        let s = s.push(Ability::Damp);
        let s = s.push(Ability::Limber);
        let s = s.push(Ability::SandVeil);
        let s = s.push(Ability::Static);
        let s = s.push(Ability::VoltAbsorb);
        let s = s.push(Ability::WaterAbsorb);
        let s = s.push(Ability::Oblivious);
        let s = s.push(Ability::CloudNine);
        let s = s.push(Ability::CompoundEyes);
        let s = s.push(Ability::Insomnia);
        let s = s.push(Ability::ColorChange);
        let s = s.push(Ability::Immunity);
        let s = s.push(Ability::FlashFire);
        let s = s.push(Ability::ShieldDust);
        let s = s.push(Ability::OwnTempo);
        let s = s.push(Ability::SuctionCups);
        let s = s.push(Ability::Intimidate);
        let s = s.push(Ability::ShadowTag);
        let s = s.push(Ability::RoughSkin);
        let s = s.push(Ability::WonderGuard);
        let s = s.push(Ability::Levitate);
        let s = s.push(Ability::EffectSpore);
        let s = s.push(Ability::Synchronize);
        let s = s.push(Ability::ClearBody);
        let s = s.push(Ability::NaturalCure);
        let s = s.push(Ability::LightningRod);
        let s = s.push(Ability::SereneGrace);
        let s = s.push(Ability::SwiftSwim);
        let s = s.push(Ability::Chlorophyll);
        let s = s.push(Ability::Illuminate);
        let s = s.push(Ability::Trace);
        let s = s.push(Ability::HugePower);
        let s = s.push(Ability::PoisonPoint);
        let s = s.push(Ability::InnerFocus);
        let s = s.push(Ability::MagmaArmor);
        let s = s.push(Ability::WaterVeil);
        let s = s.push(Ability::MagnetPull);
        let s = s.push(Ability::Soundproof);
        let s = s.push(Ability::RainDish);
        let s = s.push(Ability::SandStream);
        let s = s.push(Ability::Pressure);
        let s = s.push(Ability::ThickFat);
        let s = s.push(Ability::EarlyBird);
        let s = s.push(Ability::FlameBody);
        let s = s.push(Ability::RunAway);
        let s = s.push(Ability::KeenEye);
        let s = s.push(Ability::HyperCutter);
        let s = s.push(Ability::Pickup);
        let s = s.push(Ability::Truant);
        let s = s.push(Ability::Hustle);
        let s = s.push(Ability::CuteCharm);
        let s = s.push(Ability::Plus);
        let s = s.push(Ability::Minus);
        let s = s.push(Ability::Forecast);
        let s = s.push(Ability::StickyHold);
        let s = s.push(Ability::ShedSkin);
        let s = s.push(Ability::Guts);
        let s = s.push(Ability::MarvelScale);
        let s = s.push(Ability::LiquidOoze);
        let s = s.push(Ability::Overgrow);
        let s = s.push(Ability::Blaze);
        let s = s.push(Ability::Torrent);
        let s = s.push(Ability::Swarm);
        let s = s.push(Ability::RockHead);
        let s = s.push(Ability::Drought);
        let s = s.push(Ability::ArenaTrap);
        let s = s.push(Ability::VitalSpirit);
        let s = s.push(Ability::WhiteSmoke);
        let s = s.push(Ability::PurePower);
        let s = s.push(Ability::ShellArmor);
        let s = s.push(Ability::AirLock);
        let s = s.push(Ability::TangledFeet);
        let s = s.push(Ability::MotorDrive);
        let s = s.push(Ability::Rivalry);
        let s = s.push(Ability::Steadfast);
        let s = s.push(Ability::SnowCloak);
        let s = s.push(Ability::Gluttony);
        let s = s.push(Ability::AngerPoint);
        let s = s.push(Ability::Unburden);
        let s = s.push(Ability::Heatproof);
        let s = s.push(Ability::Simple);
        let s = s.push(Ability::DrySkin);
        let s = s.push(Ability::Download);
        let s = s.push(Ability::IronFist);
        let s = s.push(Ability::PoisonHeal);
        let s = s.push(Ability::Adaptability);
        let s = s.push(Ability::SkillLink);
        let s = s.push(Ability::Hydration);
        let s = s.push(Ability::SolarPower);
        let s = s.push(Ability::QuickFeet);
        let s = s.push(Ability::Normalize);
        let s = s.push(Ability::Sniper);
        let s = s.push(Ability::MagicGuard);
        let s = s.push(Ability::NoGuard);
        let s = s.push(Ability::Stall);
        let s = s.push(Ability::Technician);
        let s = s.push(Ability::LeafGuard);
        let s = s.push(Ability::Klutz);
        let s = s.push(Ability::MoldBreaker);
        let s = s.push(Ability::SuperLuck);
        let s = s.push(Ability::Aftermath);
        let s = s.push(Ability::Anticipation);
        let s = s.push(Ability::Forewarn);
        let s = s.push(Ability::Unaware);
        let s = s.push(Ability::TintedLens);
        let s = s.push(Ability::Filter);
        let s = s.push(Ability::SlowStart);
        let s = s.push(Ability::Scrappy);
        let s = s.push(Ability::StormDrain);
        let s = s.push(Ability::IceBody);
        let s = s.push(Ability::SolidRock);
        let s = s.push(Ability::SnowWarning);
        let s = s.push(Ability::HoneyGather);
        let s = s.push(Ability::Frisk);
        let s = s.push(Ability::Reckless);
        let s = s.push(Ability::Multitype);
        let s = s.push(Ability::FlowerGift);
        let s = s.push(Ability::BadDreams);
        let s = s.push(Ability::Pickpocket);
        let s = s.push(Ability::SheerForce);
        let s = s.push(Ability::Contrary);
        let s = s.push(Ability::Unnerve);
        let s = s.push(Ability::Defiant);
        let s = s.push(Ability::Defeatist);
        let s = s.push(Ability::CursedBody);
        let s = s.push(Ability::Healer);
        let s = s.push(Ability::FriendGuard);
        let s = s.push(Ability::WeakArmor);
        let s = s.push(Ability::HeavyMetal);
        let s = s.push(Ability::LightMetal);
        let s = s.push(Ability::Multiscale);
        let s = s.push(Ability::ToxicBoost);
        let s = s.push(Ability::FlareBoost);
        let s = s.push(Ability::Harvest);
        let s = s.push(Ability::Telepathy);
        let s = s.push(Ability::Moody);
        let s = s.push(Ability::Overcoat);
        let s = s.push(Ability::PoisonTouch);
        let s = s.push(Ability::Regenerator);
        let s = s.push(Ability::BigPecks);
        let s = s.push(Ability::SandRush);
        let s = s.push(Ability::WonderSkin);
        let s = s.push(Ability::Analytic);
        let s = s.push(Ability::Illusion);
        let s = s.push(Ability::Imposter);
        let s = s.push(Ability::Infiltrator);
        let s = s.push(Ability::Mummy);
        let s = s.push(Ability::Moxie);
        let s = s.push(Ability::Justified);
        let s = s.push(Ability::Rattled);
        let s = s.push(Ability::MagicBounce);
        let s = s.push(Ability::SapSipper);
        let s = s.push(Ability::Prankster);
        let s = s.push(Ability::SandForce);
        let s = s.push(Ability::IronBarbs);
        let s = s.push(Ability::ZenMode);
        let s = s.push(Ability::VictoryStar);
        let s = s.push(Ability::Turboblaze);
        let s = s.push(Ability::Teravolt);
        s
    }

    fn values() -> (v: Vec<Ability>) {
        let mut v: Vec<Ability> = Vec::new();
        v.push(Ability::Stench);
        v.push(Ability::Drizzle);
        v.push(Ability::SpeedBoost);
        v.push(Ability::BattleArmor);
        v.push(Ability::Sturdy);
        v.push(Ability::Damp);
        v.push(Ability::Limber);
        v.push(Ability::SandVeil);
        v.push(Ability::Static);
        v.push(Ability::VoltAbsorb);
        v.push(Ability::WaterAbsorb);
        v.push(Ability::Oblivious);
        v.push(Ability::CloudNine);
        v.push(Ability::CompoundEyes);
        v.push(Ability::Insomnia);
        v.push(Ability::ColorChange);
        v.push(Ability::Immunity);
        v.push(Ability::FlashFire);
        v.push(Ability::ShieldDust);
        v.push(Ability::OwnTempo);
        v.push(Ability::SuctionCups);
        v.push(Ability::Intimidate);
        v.push(Ability::ShadowTag);
        v.push(Ability::RoughSkin);
        v.push(Ability::WonderGuard);
        v.push(Ability::Levitate);
        v.push(Ability::EffectSpore);
        v.push(Ability::Synchronize);
        v.push(Ability::ClearBody);
        v.push(Ability::NaturalCure);
        v.push(Ability::LightningRod);
        v.push(Ability::SereneGrace);
        v.push(Ability::SwiftSwim);
        v.push(Ability::Chlorophyll);
        v.push(Ability::Illuminate);
        v.push(Ability::Trace);
        v.push(Ability::HugePower);
        v.push(Ability::PoisonPoint);
        v.push(Ability::InnerFocus);
        v.push(Ability::MagmaArmor);
        v.push(Ability::WaterVeil);
        v.push(Ability::MagnetPull);
        v.push(Ability::Soundproof);
        v.push(Ability::RainDish);
        v.push(Ability::SandStream);
        v.push(Ability::Pressure);
        v.push(Ability::ThickFat);
        v.push(Ability::EarlyBird);
        v.push(Ability::FlameBody);
        v.push(Ability::RunAway);
        v.push(Ability::KeenEye);
        v.push(Ability::HyperCutter);
        v.push(Ability::Pickup);
        v.push(Ability::Truant);
        v.push(Ability::Hustle);
        v.push(Ability::CuteCharm);
        v.push(Ability::Plus);
        v.push(Ability::Minus);
        v.push(Ability::Forecast);
        v.push(Ability::StickyHold);
        v.push(Ability::ShedSkin);
        v.push(Ability::Guts);
        v.push(Ability::MarvelScale);
        v.push(Ability::LiquidOoze);
        v.push(Ability::Overgrow);
        v.push(Ability::Blaze);
        v.push(Ability::Torrent);
        v.push(Ability::Swarm);
        v.push(Ability::RockHead);
        v.push(Ability::Drought);
        v.push(Ability::ArenaTrap);
        v.push(Ability::VitalSpirit);
        v.push(Ability::WhiteSmoke);
        v.push(Ability::PurePower);
        v.push(Ability::ShellArmor);
        v.push(Ability::AirLock);
        v.push(Ability::TangledFeet);
        v.push(Ability::MotorDrive);
        v.push(Ability::Rivalry);
        v.push(Ability::Steadfast);
        v.push(Ability::SnowCloak);
        v.push(Ability::Gluttony);
        v.push(Ability::AngerPoint);
        v.push(Ability::Unburden);
        v.push(Ability::Heatproof);
        v.push(Ability::Simple);
        v.push(Ability::DrySkin);
        v.push(Ability::Download);
        v.push(Ability::IronFist);
        v.push(Ability::PoisonHeal);
        v.push(Ability::Adaptability);
        v.push(Ability::SkillLink);
        v.push(Ability::Hydration);
        v.push(Ability::SolarPower);
        v.push(Ability::QuickFeet);
        v.push(Ability::Normalize);
        v.push(Ability::Sniper);
        v.push(Ability::MagicGuard);
        v.push(Ability::NoGuard);
        v.push(Ability::Stall);
        v.push(Ability::Technician);
        v.push(Ability::LeafGuard);
        v.push(Ability::Klutz);
        v.push(Ability::MoldBreaker);
        v.push(Ability::SuperLuck);
        v.push(Ability::Aftermath);
        v.push(Ability::Anticipation);
        v.push(Ability::Forewarn);
        v.push(Ability::Unaware);
        v.push(Ability::TintedLens);
        v.push(Ability::Filter);
        v.push(Ability::SlowStart);
        v.push(Ability::Scrappy);
        v.push(Ability::StormDrain);
        v.push(Ability::IceBody);
        v.push(Ability::SolidRock);
        v.push(Ability::SnowWarning);
        v.push(Ability::HoneyGather);
        v.push(Ability::Frisk);
        v.push(Ability::Reckless);
        v.push(Ability::Multitype);
        v.push(Ability::FlowerGift);
        v.push(Ability::BadDreams);
        v.push(Ability::Pickpocket);
        v.push(Ability::SheerForce);
        v.push(Ability::Contrary);
        v.push(Ability::Unnerve);
        v.push(Ability::Defiant);
        v.push(Ability::Defeatist);
        v.push(Ability::CursedBody);
        v.push(Ability::Healer);
        v.push(Ability::FriendGuard);
        v.push(Ability::WeakArmor);
        v.push(Ability::HeavyMetal);
        v.push(Ability::LightMetal);
        v.push(Ability::Multiscale);
        v.push(Ability::ToxicBoost);
        v.push(Ability::FlareBoost);
        v.push(Ability::Harvest);
        v.push(Ability::Telepathy);
        v.push(Ability::Moody);
        v.push(Ability::Overcoat);
        v.push(Ability::PoisonTouch);
        v.push(Ability::Regenerator);
        v.push(Ability::BigPecks);
        v.push(Ability::SandRush);
        v.push(Ability::WonderSkin);
        v.push(Ability::Analytic);
        v.push(Ability::Illusion);
        v.push(Ability::Imposter);
        v.push(Ability::Infiltrator);
        v.push(Ability::Mummy);
        v.push(Ability::Moxie);
        v.push(Ability::Justified);
        v.push(Ability::Rattled);
        v.push(Ability::MagicBounce);
        v.push(Ability::SapSipper);
        v.push(Ability::Prankster);
        v.push(Ability::SandForce);
        v.push(Ability::IronBarbs);
        v.push(Ability::ZenMode);
        v.push(Ability::VictoryStar);
        v.push(Ability::Turboblaze);
        v.push(Ability::Teravolt);
        v
    }
    open spec fn spec_repr(self) -> i32 {
        match self {
            Ability::Stench => 1,
            Ability::Drizzle => 2,
            Ability::SpeedBoost => 3,
            Ability::BattleArmor => 4,
            Ability::Sturdy => 5,
            Ability::Damp => 6,
            Ability::Limber => 7,
            Ability::SandVeil => 8,
            Ability::Static => 9,
            Ability::VoltAbsorb => 10,
            Ability::WaterAbsorb => 11,
            Ability::Oblivious => 12,
            Ability::CloudNine => 13,
            Ability::CompoundEyes => 14,
            Ability::Insomnia => 15,
            Ability::ColorChange => 16,
            Ability::Immunity => 17,
            Ability::FlashFire => 18,
            Ability::ShieldDust => 19,
            Ability::OwnTempo => 20,
            Ability::SuctionCups => 21,
            Ability::Intimidate => 22,
            Ability::ShadowTag => 23,
            Ability::RoughSkin => 24,
            Ability::WonderGuard => 25,
            Ability::Levitate => 26,
            Ability::EffectSpore => 27,
            Ability::Synchronize => 28,
            Ability::ClearBody => 29,
            Ability::NaturalCure => 30,
            Ability::LightningRod => 31,
            Ability::SereneGrace => 32,
            Ability::SwiftSwim => 33,
            Ability::Chlorophyll => 34,
            Ability::Illuminate => 35,
            Ability::Trace => 36,
            Ability::HugePower => 37,
            Ability::PoisonPoint => 38,
            Ability::InnerFocus => 39,
            Ability::MagmaArmor => 40,
            Ability::WaterVeil => 41,
            Ability::MagnetPull => 42,
            Ability::Soundproof => 43,
            Ability::RainDish => 44,
            Ability::SandStream => 45,
            Ability::Pressure => 46,
            Ability::ThickFat => 47,
            Ability::EarlyBird => 48,
            Ability::FlameBody => 49,
            Ability::RunAway => 50,
            Ability::KeenEye => 51,
            Ability::HyperCutter => 52,
            Ability::Pickup => 53,
            Ability::Truant => 54,
            Ability::Hustle => 55,
            Ability::CuteCharm => 56,
            Ability::Plus => 57,
            Ability::Minus => 58,
            Ability::Forecast => 59,
            Ability::StickyHold => 60,
            Ability::ShedSkin => 61,
            Ability::Guts => 62,
            Ability::MarvelScale => 63,
            Ability::LiquidOoze => 64,
            Ability::Overgrow => 65,
            Ability::Blaze => 66,
            Ability::Torrent => 67,
            Ability::Swarm => 68,
            Ability::RockHead => 69,
            Ability::Drought => 70,
            Ability::ArenaTrap => 71,
            Ability::VitalSpirit => 72,
            Ability::WhiteSmoke => 73,
            Ability::PurePower => 74,
            Ability::ShellArmor => 75,
            Ability::AirLock => 76,
            Ability::TangledFeet => 77,
            Ability::MotorDrive => 78,
            Ability::Rivalry => 79,
            Ability::Steadfast => 80,
            Ability::SnowCloak => 81,
            Ability::Gluttony => 82,
            Ability::AngerPoint => 83,
            Ability::Unburden => 84,
            Ability::Heatproof => 85,
            Ability::Simple => 86,
            Ability::DrySkin => 87,
            Ability::Download => 88,
            Ability::IronFist => 89,
            Ability::PoisonHeal => 90,
            Ability::Adaptability => 91,
            Ability::SkillLink => 92,
            Ability::Hydration => 93,
            Ability::SolarPower => 94,
            Ability::QuickFeet => 95,
            Ability::Normalize => 96,
            Ability::Sniper => 97,
            Ability::MagicGuard => 98,
            Ability::NoGuard => 99,
            Ability::Stall => 100,
            Ability::Technician => 101,
            Ability::LeafGuard => 102,
            Ability::Klutz => 103,
            Ability::MoldBreaker => 104,
            Ability::SuperLuck => 105,
            Ability::Aftermath => 106,
            Ability::Anticipation => 107,
            Ability::Forewarn => 108,
            Ability::Unaware => 109,
            Ability::TintedLens => 110,
            Ability::Filter => 111,
            Ability::SlowStart => 112,
            Ability::Scrappy => 113,
            Ability::StormDrain => 114,
            Ability::IceBody => 115,
            Ability::SolidRock => 116,
            Ability::SnowWarning => 117,
            Ability::HoneyGather => 118,
            Ability::Frisk => 119,
            Ability::Reckless => 120,
            Ability::Multitype => 121,
            Ability::FlowerGift => 122,
            Ability::BadDreams => 123,
            Ability::Pickpocket => 124,
            Ability::SheerForce => 125,
            Ability::Contrary => 126,
            Ability::Unnerve => 127,
            Ability::Defiant => 128,
            Ability::Defeatist => 129,
            Ability::CursedBody => 130,
            Ability::Healer => 131,
            Ability::FriendGuard => 132,
            Ability::WeakArmor => 133,
            Ability::HeavyMetal => 134,
            Ability::LightMetal => 135,
            Ability::Multiscale => 136,
            Ability::ToxicBoost => 137,
            Ability::FlareBoost => 138,
            Ability::Harvest => 139,
            Ability::Telepathy => 140,
            Ability::Moody => 141,
            Ability::Overcoat => 142,
            Ability::PoisonTouch => 143,
            Ability::Regenerator => 144,
            Ability::BigPecks => 145,
            Ability::SandRush => 146,
            Ability::WonderSkin => 147,
            Ability::Analytic => 148,
            Ability::Illusion => 149,
            Ability::Imposter => 150,
            Ability::Infiltrator => 151,
            Ability::Mummy => 152,
            Ability::Moxie => 153,
            Ability::Justified => 154,
            Ability::Rattled => 155,
            Ability::MagicBounce => 156,
            Ability::SapSipper => 157,
            Ability::Prankster => 158,
            Ability::SandForce => 159,
            Ability::IronBarbs => 160,
            Ability::ZenMode => 161,
            Ability::VictoryStar => 162,
            Ability::Turboblaze => 163,
            Ability::Teravolt => 164,
        }
    }

    open spec fn spec_from_repr(code: i32) -> Option<Ability> {
        match code {
            1 => Some(Ability::Stench),
            2 => Some(Ability::Drizzle),
            3 => Some(Ability::SpeedBoost),
            4 => Some(Ability::BattleArmor),
            5 => Some(Ability::Sturdy),
            6 => Some(Ability::Damp),
            7 => Some(Ability::Limber),
            8 => Some(Ability::SandVeil),
            9 => Some(Ability::Static),
            10 => Some(Ability::VoltAbsorb),
            11 => Some(Ability::WaterAbsorb),
            12 => Some(Ability::Oblivious),
            13 => Some(Ability::CloudNine),
            14 => Some(Ability::CompoundEyes),
            15 => Some(Ability::Insomnia),
            16 => Some(Ability::ColorChange),
            17 => Some(Ability::Immunity),
            18 => Some(Ability::FlashFire),
            19 => Some(Ability::ShieldDust),
            20 => Some(Ability::OwnTempo),
            21 => Some(Ability::SuctionCups),
            22 => Some(Ability::Intimidate),
            23 => Some(Ability::ShadowTag),
            24 => Some(Ability::RoughSkin),
            25 => Some(Ability::WonderGuard),
            26 => Some(Ability::Levitate),
            27 => Some(Ability::EffectSpore),
            28 => Some(Ability::Synchronize),
            29 => Some(Ability::ClearBody),
            30 => Some(Ability::NaturalCure),
            31 => Some(Ability::LightningRod),
            32 => Some(Ability::SereneGrace),
            33 => Some(Ability::SwiftSwim),
            34 => Some(Ability::Chlorophyll),
            35 => Some(Ability::Illuminate),
            36 => Some(Ability::Trace),
            37 => Some(Ability::HugePower),
            38 => Some(Ability::PoisonPoint),
            39 => Some(Ability::InnerFocus),
            40 => Some(Ability::MagmaArmor),
            41 => Some(Ability::WaterVeil),
            42 => Some(Ability::MagnetPull),
            43 => Some(Ability::Soundproof),
            44 => Some(Ability::RainDish),
            45 => Some(Ability::SandStream),
            46 => Some(Ability::Pressure),
            47 => Some(Ability::ThickFat),
            48 => Some(Ability::EarlyBird),
            49 => Some(Ability::FlameBody),
            50 => Some(Ability::RunAway),
            51 => Some(Ability::KeenEye),
            52 => Some(Ability::HyperCutter),
            53 => Some(Ability::Pickup),
            54 => Some(Ability::Truant),
            55 => Some(Ability::Hustle),
            56 => Some(Ability::CuteCharm),
            57 => Some(Ability::Plus),
            58 => Some(Ability::Minus),
            59 => Some(Ability::Forecast),
            60 => Some(Ability::StickyHold),
            61 => Some(Ability::ShedSkin),
            62 => Some(Ability::Guts),
            63 => Some(Ability::MarvelScale),
            64 => Some(Ability::LiquidOoze),
            65 => Some(Ability::Overgrow),
            66 => Some(Ability::Blaze),
            67 => Some(Ability::Torrent),
            68 => Some(Ability::Swarm),
            69 => Some(Ability::RockHead),
            70 => Some(Ability::Drought),
            71 => Some(Ability::ArenaTrap),
            72 => Some(Ability::VitalSpirit),
            73 => Some(Ability::WhiteSmoke),
            74 => Some(Ability::PurePower),
            75 => Some(Ability::ShellArmor),
            76 => Some(Ability::AirLock),
            77 => Some(Ability::TangledFeet),
            78 => Some(Ability::MotorDrive),
            79 => Some(Ability::Rivalry),
            80 => Some(Ability::Steadfast),
            81 => Some(Ability::SnowCloak),
            82 => Some(Ability::Gluttony),
            83 => Some(Ability::AngerPoint),
            84 => Some(Ability::Unburden),
            85 => Some(Ability::Heatproof),
            86 => Some(Ability::Simple),
            87 => Some(Ability::DrySkin),
            88 => Some(Ability::Download),
            89 => Some(Ability::IronFist),
            90 => Some(Ability::PoisonHeal),
            91 => Some(Ability::Adaptability),
            92 => Some(Ability::SkillLink),
            93 => Some(Ability::Hydration),
            94 => Some(Ability::SolarPower),
            95 => Some(Ability::QuickFeet),
            96 => Some(Ability::Normalize),
            97 => Some(Ability::Sniper),
            98 => Some(Ability::MagicGuard),
            99 => Some(Ability::NoGuard),
            100 => Some(Ability::Stall),
            101 => Some(Ability::Technician),
            102 => Some(Ability::LeafGuard),
            103 => Some(Ability::Klutz),
            104 => Some(Ability::MoldBreaker),
            105 => Some(Ability::SuperLuck),
            106 => Some(Ability::Aftermath),
            107 => Some(Ability::Anticipation),
            108 => Some(Ability::Forewarn),
            109 => Some(Ability::Unaware),
            110 => Some(Ability::TintedLens),
            111 => Some(Ability::Filter),
            112 => Some(Ability::SlowStart),
            113 => Some(Ability::Scrappy),
            114 => Some(Ability::StormDrain),
            115 => Some(Ability::IceBody),
            116 => Some(Ability::SolidRock),
            117 => Some(Ability::SnowWarning),
            118 => Some(Ability::HoneyGather),
            119 => Some(Ability::Frisk),
            120 => Some(Ability::Reckless),
            121 => Some(Ability::Multitype),
            122 => Some(Ability::FlowerGift),
            123 => Some(Ability::BadDreams),
            124 => Some(Ability::Pickpocket),
            125 => Some(Ability::SheerForce),
            126 => Some(Ability::Contrary),
            127 => Some(Ability::Unnerve),
            128 => Some(Ability::Defiant),
            129 => Some(Ability::Defeatist),
            130 => Some(Ability::CursedBody),
            131 => Some(Ability::Healer),
            132 => Some(Ability::FriendGuard),
            133 => Some(Ability::WeakArmor),
            134 => Some(Ability::HeavyMetal),
            135 => Some(Ability::LightMetal),
            136 => Some(Ability::Multiscale),
            137 => Some(Ability::ToxicBoost),
            138 => Some(Ability::FlareBoost),
            139 => Some(Ability::Harvest),
            140 => Some(Ability::Telepathy),
            141 => Some(Ability::Moody),
            142 => Some(Ability::Overcoat),
            143 => Some(Ability::PoisonTouch),
            144 => Some(Ability::Regenerator),
            145 => Some(Ability::BigPecks),
            146 => Some(Ability::SandRush),
            147 => Some(Ability::WonderSkin),
            148 => Some(Ability::Analytic),
            149 => Some(Ability::Illusion),
            150 => Some(Ability::Imposter),
            151 => Some(Ability::Infiltrator),
            152 => Some(Ability::Mummy),
            153 => Some(Ability::Moxie),
            154 => Some(Ability::Justified),
            155 => Some(Ability::Rattled),
            156 => Some(Ability::MagicBounce),
            157 => Some(Ability::SapSipper),
            158 => Some(Ability::Prankster),
            159 => Some(Ability::SandForce),
            160 => Some(Ability::IronBarbs),
            161 => Some(Ability::ZenMode),
            162 => Some(Ability::VictoryStar),
            163 => Some(Ability::Turboblaze),
            164 => Some(Ability::Teravolt),
            _ => None,
        }
    }

    open spec fn spec_count() -> int {
        164
    }

    fn repr(self) -> (c: i32) {
        match self {
            Ability::Stench => 1,
            Ability::Drizzle => 2,
            Ability::SpeedBoost => 3,
            Ability::BattleArmor => 4,
            Ability::Sturdy => 5,
            Ability::Damp => 6,
            Ability::Limber => 7,
            Ability::SandVeil => 8,
            Ability::Static => 9,
            Ability::VoltAbsorb => 10,
            Ability::WaterAbsorb => 11,
            Ability::Oblivious => 12,
            Ability::CloudNine => 13,
            Ability::CompoundEyes => 14,
            Ability::Insomnia => 15,
            Ability::ColorChange => 16,
            Ability::Immunity => 17,
            Ability::FlashFire => 18,
            Ability::ShieldDust => 19,
            Ability::OwnTempo => 20,
            Ability::SuctionCups => 21,
            Ability::Intimidate => 22,
            Ability::ShadowTag => 23,
            Ability::RoughSkin => 24,
            Ability::WonderGuard => 25,
            Ability::Levitate => 26,
            Ability::EffectSpore => 27,
            Ability::Synchronize => 28,
            Ability::ClearBody => 29,
            Ability::NaturalCure => 30,
            Ability::LightningRod => 31,
            Ability::SereneGrace => 32,
            Ability::SwiftSwim => 33,
            Ability::Chlorophyll => 34,
            Ability::Illuminate => 35,
            Ability::Trace => 36,
            Ability::HugePower => 37,
            Ability::PoisonPoint => 38,
            Ability::InnerFocus => 39,
            Ability::MagmaArmor => 40,
            Ability::WaterVeil => 41,
            Ability::MagnetPull => 42,
            Ability::Soundproof => 43,
            Ability::RainDish => 44,
            Ability::SandStream => 45,
            Ability::Pressure => 46,
            Ability::ThickFat => 47,
            Ability::EarlyBird => 48,
            Ability::FlameBody => 49,
            Ability::RunAway => 50,
            Ability::KeenEye => 51,
            Ability::HyperCutter => 52,
            Ability::Pickup => 53,
            Ability::Truant => 54,
            Ability::Hustle => 55,
            Ability::CuteCharm => 56,
            Ability::Plus => 57,
            Ability::Minus => 58,
            Ability::Forecast => 59,
            Ability::StickyHold => 60,
            Ability::ShedSkin => 61,
            Ability::Guts => 62,
            Ability::MarvelScale => 63,
            Ability::LiquidOoze => 64,
            Ability::Overgrow => 65,
            Ability::Blaze => 66,
            Ability::Torrent => 67,
            Ability::Swarm => 68,
            Ability::RockHead => 69,
            Ability::Drought => 70,
            Ability::ArenaTrap => 71,
            Ability::VitalSpirit => 72,
            Ability::WhiteSmoke => 73,
            Ability::PurePower => 74,
            Ability::ShellArmor => 75,
            Ability::AirLock => 76,
            Ability::TangledFeet => 77,
            Ability::MotorDrive => 78,
            Ability::Rivalry => 79,
            Ability::Steadfast => 80,
            Ability::SnowCloak => 81,
            Ability::Gluttony => 82,
            Ability::AngerPoint => 83,
            Ability::Unburden => 84,
            Ability::Heatproof => 85,
            Ability::Simple => 86,
            Ability::DrySkin => 87,
            Ability::Download => 88,
            Ability::IronFist => 89,
            Ability::PoisonHeal => 90,
            Ability::Adaptability => 91,
            Ability::SkillLink => 92,
            Ability::Hydration => 93,
            Ability::SolarPower => 94,
            Ability::QuickFeet => 95,
            Ability::Normalize => 96,
            Ability::Sniper => 97,
            Ability::MagicGuard => 98,
            Ability::NoGuard => 99,
            Ability::Stall => 100,
            Ability::Technician => 101,
            Ability::LeafGuard => 102,
            Ability::Klutz => 103,
            Ability::MoldBreaker => 104,
            Ability::SuperLuck => 105,
            Ability::Aftermath => 106,
            Ability::Anticipation => 107,
            Ability::Forewarn => 108,
            Ability::Unaware => 109,
            Ability::TintedLens => 110,
            Ability::Filter => 111,
            Ability::SlowStart => 112,
            Ability::Scrappy => 113,
            Ability::StormDrain => 114,
            Ability::IceBody => 115,
            Ability::SolidRock => 116,
            Ability::SnowWarning => 117,
            Ability::HoneyGather => 118,
            Ability::Frisk => 119,
            Ability::Reckless => 120,
            Ability::Multitype => 121,
            Ability::FlowerGift => 122,
            Ability::BadDreams => 123,
            Ability::Pickpocket => 124,
            Ability::SheerForce => 125,
            Ability::Contrary => 126,
            Ability::Unnerve => 127,
            Ability::Defiant => 128,
            Ability::Defeatist => 129,
            Ability::CursedBody => 130,
            Ability::Healer => 131,
            Ability::FriendGuard => 132,
            Ability::WeakArmor => 133,
            Ability::HeavyMetal => 134,
            Ability::LightMetal => 135,
            Ability::Multiscale => 136,
            Ability::ToxicBoost => 137,
            Ability::FlareBoost => 138,
            Ability::Harvest => 139,
            Ability::Telepathy => 140,
            Ability::Moody => 141,
            Ability::Overcoat => 142,
            Ability::PoisonTouch => 143,
            Ability::Regenerator => 144,
            Ability::BigPecks => 145,
            Ability::SandRush => 146,
            Ability::WonderSkin => 147,
            Ability::Analytic => 148,
            Ability::Illusion => 149,
            Ability::Imposter => 150,
            Ability::Infiltrator => 151,
            Ability::Mummy => 152,
            Ability::Moxie => 153,
            Ability::Justified => 154,
            Ability::Rattled => 155,
            Ability::MagicBounce => 156,
            Ability::SapSipper => 157,
            Ability::Prankster => 158,
            Ability::SandForce => 159,
            Ability::IronBarbs => 160,
            Ability::ZenMode => 161,
            Ability::VictoryStar => 162,
            Ability::Turboblaze => 163,
            Ability::Teravolt => 164,
        }
    }

    fn from_repr(code: i32) -> (r: Option<Ability>) {
        match code {
            1 => Some(Ability::Stench),
            2 => Some(Ability::Drizzle),
            3 => Some(Ability::SpeedBoost),
            4 => Some(Ability::BattleArmor),
            5 => Some(Ability::Sturdy),
            6 => Some(Ability::Damp),
            7 => Some(Ability::Limber),
            8 => Some(Ability::SandVeil),
            9 => Some(Ability::Static),
            10 => Some(Ability::VoltAbsorb),
            11 => Some(Ability::WaterAbsorb),
            12 => Some(Ability::Oblivious),
            13 => Some(Ability::CloudNine),
            14 => Some(Ability::CompoundEyes),
            15 => Some(Ability::Insomnia),
            16 => Some(Ability::ColorChange),
            17 => Some(Ability::Immunity),
            18 => Some(Ability::FlashFire),
            19 => Some(Ability::ShieldDust),
            20 => Some(Ability::OwnTempo),
            21 => Some(Ability::SuctionCups),
            22 => Some(Ability::Intimidate),
            23 => Some(Ability::ShadowTag),
            24 => Some(Ability::RoughSkin),
            25 => Some(Ability::WonderGuard),
            26 => Some(Ability::Levitate),
            27 => Some(Ability::EffectSpore),
            28 => Some(Ability::Synchronize),
            29 => Some(Ability::ClearBody),
            30 => Some(Ability::NaturalCure),
            31 => Some(Ability::LightningRod),
            32 => Some(Ability::SereneGrace),
            33 => Some(Ability::SwiftSwim),
            34 => Some(Ability::Chlorophyll),
            35 => Some(Ability::Illuminate),
            36 => Some(Ability::Trace),
            37 => Some(Ability::HugePower),
            38 => Some(Ability::PoisonPoint),
            39 => Some(Ability::InnerFocus),
            40 => Some(Ability::MagmaArmor),
            41 => Some(Ability::WaterVeil),
            42 => Some(Ability::MagnetPull),
            43 => Some(Ability::Soundproof),
            44 => Some(Ability::RainDish),
            45 => Some(Ability::SandStream),
            46 => Some(Ability::Pressure),
            47 => Some(Ability::ThickFat),
            48 => Some(Ability::EarlyBird),
            49 => Some(Ability::FlameBody),
            50 => Some(Ability::RunAway),
            51 => Some(Ability::KeenEye),
            52 => Some(Ability::HyperCutter),
            53 => Some(Ability::Pickup),
            54 => Some(Ability::Truant),
            55 => Some(Ability::Hustle),
            56 => Some(Ability::CuteCharm),
            57 => Some(Ability::Plus),
            58 => Some(Ability::Minus),
            59 => Some(Ability::Forecast),
            60 => Some(Ability::StickyHold),
            61 => Some(Ability::ShedSkin),
            62 => Some(Ability::Guts),
            63 => Some(Ability::MarvelScale),
            64 => Some(Ability::LiquidOoze),
            65 => Some(Ability::Overgrow),
            66 => Some(Ability::Blaze),
            67 => Some(Ability::Torrent),
            68 => Some(Ability::Swarm),
            69 => Some(Ability::RockHead),
            70 => Some(Ability::Drought),
            71 => Some(Ability::ArenaTrap),
            72 => Some(Ability::VitalSpirit),
            73 => Some(Ability::WhiteSmoke),
            74 => Some(Ability::PurePower),
            75 => Some(Ability::ShellArmor),
            76 => Some(Ability::AirLock),
            77 => Some(Ability::TangledFeet),
            78 => Some(Ability::MotorDrive),
            79 => Some(Ability::Rivalry),
            80 => Some(Ability::Steadfast),
            81 => Some(Ability::SnowCloak),
            82 => Some(Ability::Gluttony),
            83 => Some(Ability::AngerPoint),
            84 => Some(Ability::Unburden),
            85 => Some(Ability::Heatproof),
            86 => Some(Ability::Simple),
            87 => Some(Ability::DrySkin),
            88 => Some(Ability::Download),
            89 => Some(Ability::IronFist),
            90 => Some(Ability::PoisonHeal),
            91 => Some(Ability::Adaptability),
            92 => Some(Ability::SkillLink),
            93 => Some(Ability::Hydration),
            94 => Some(Ability::SolarPower),
            95 => Some(Ability::QuickFeet),
            96 => Some(Ability::Normalize),
            97 => Some(Ability::Sniper),
            98 => Some(Ability::MagicGuard),
            99 => Some(Ability::NoGuard),
            100 => Some(Ability::Stall),
            101 => Some(Ability::Technician),
            102 => Some(Ability::LeafGuard),
            103 => Some(Ability::Klutz),
            104 => Some(Ability::MoldBreaker),
            105 => Some(Ability::SuperLuck),
            106 => Some(Ability::Aftermath),
            107 => Some(Ability::Anticipation),
            108 => Some(Ability::Forewarn),
            109 => Some(Ability::Unaware),
            110 => Some(Ability::TintedLens),
            111 => Some(Ability::Filter),
            112 => Some(Ability::SlowStart),
            113 => Some(Ability::Scrappy),
            114 => Some(Ability::StormDrain),
            115 => Some(Ability::IceBody),
            116 => Some(Ability::SolidRock),
            117 => Some(Ability::SnowWarning),
            118 => Some(Ability::HoneyGather),
            119 => Some(Ability::Frisk),
            120 => Some(Ability::Reckless),
            121 => Some(Ability::Multitype),
            122 => Some(Ability::FlowerGift),
            123 => Some(Ability::BadDreams),
            124 => Some(Ability::Pickpocket),
            125 => Some(Ability::SheerForce),
            126 => Some(Ability::Contrary),
            127 => Some(Ability::Unnerve),
            128 => Some(Ability::Defiant),
            129 => Some(Ability::Defeatist),
            130 => Some(Ability::CursedBody),
            131 => Some(Ability::Healer),
            132 => Some(Ability::FriendGuard),
            133 => Some(Ability::WeakArmor),
            134 => Some(Ability::HeavyMetal),
            135 => Some(Ability::LightMetal),
            136 => Some(Ability::Multiscale),
            137 => Some(Ability::ToxicBoost),
            138 => Some(Ability::FlareBoost),
            139 => Some(Ability::Harvest),
            140 => Some(Ability::Telepathy),
            141 => Some(Ability::Moody),
            142 => Some(Ability::Overcoat),
            143 => Some(Ability::PoisonTouch),
            144 => Some(Ability::Regenerator),
            145 => Some(Ability::BigPecks),
            146 => Some(Ability::SandRush),
            147 => Some(Ability::WonderSkin),
            148 => Some(Ability::Analytic),
            149 => Some(Ability::Illusion),
            150 => Some(Ability::Imposter),
            151 => Some(Ability::Infiltrator),
            152 => Some(Ability::Mummy),
            153 => Some(Ability::Moxie),
            154 => Some(Ability::Justified),
            155 => Some(Ability::Rattled),
            156 => Some(Ability::MagicBounce),
            157 => Some(Ability::SapSipper),
            158 => Some(Ability::Prankster),
            159 => Some(Ability::SandForce),
            160 => Some(Ability::IronBarbs),
            161 => Some(Ability::ZenMode),
            162 => Some(Ability::VictoryStar),
            163 => Some(Ability::Turboblaze),
            164 => Some(Ability::Teravolt),
            _ => None,
        }
    }

    fn count() -> (n: usize) {
        164
    }

    #[verifier::rlimit(100)]
    proof fn lemma_values_count() {
        let s = Seq::<Ability>::empty();
        assert(s.len() == 0);
        let s = s.push(Ability::Stench);
        assert(s.len() == 1);
        let s = s.push(Ability::Drizzle);
        assert(s.len() == 2);
        let s = s.push(Ability::SpeedBoost);
        assert(s.len() == 3);
        let s = s.push(Ability::BattleArmor);
        assert(s.len() == 4);
        let s = s.push(Ability::Sturdy);
        assert(s.len() == 5);
        let s = s.push(Ability::Damp);
        assert(s.len() == 6);
        let s = s.push(Ability::Limber);
        assert(s.len() == 7);
        let s = s.push(Ability::SandVeil);
        assert(s.len() == 8);
        let s = s.push(Ability::Static);
        assert(s.len() == 9);
        let s = s.push(Ability::VoltAbsorb);
        assert(s.len() == 10);
        let s = s.push(Ability::WaterAbsorb);
        assert(s.len() == 11);
        let s = s.push(Ability::Oblivious);
        assert(s.len() == 12);
        let s = s.push(Ability::CloudNine);
        assert(s.len() == 13);
        let s = s.push(Ability::CompoundEyes);
        assert(s.len() == 14);
        let s = s.push(Ability::Insomnia);
        assert(s.len() == 15);
        let s = s.push(Ability::ColorChange);
        assert(s.len() == 16);
        let s = s.push(Ability::Immunity);
        assert(s.len() == 17);
        let s = s.push(Ability::FlashFire);
        assert(s.len() == 18);
        let s = s.push(Ability::ShieldDust);
        assert(s.len() == 19);
        let s = s.push(Ability::OwnTempo);
        assert(s.len() == 20);
        let s = s.push(Ability::SuctionCups);
        assert(s.len() == 21);
        let s = s.push(Ability::Intimidate);
        assert(s.len() == 22);
        let s = s.push(Ability::ShadowTag);
        assert(s.len() == 23);
        let s = s.push(Ability::RoughSkin);
        assert(s.len() == 24);
        let s = s.push(Ability::WonderGuard);
        assert(s.len() == 25);
        let s = s.push(Ability::Levitate);
        assert(s.len() == 26);
        let s = s.push(Ability::EffectSpore);
        assert(s.len() == 27);
        let s = s.push(Ability::Synchronize);
        assert(s.len() == 28);
        let s = s.push(Ability::ClearBody);
        assert(s.len() == 29);
        let s = s.push(Ability::NaturalCure);
        assert(s.len() == 30);
        let s = s.push(Ability::LightningRod);
        assert(s.len() == 31);
        let s = s.push(Ability::SereneGrace);
        assert(s.len() == 32);
        let s = s.push(Ability::SwiftSwim);
        assert(s.len() == 33);
        let s = s.push(Ability::Chlorophyll);
        assert(s.len() == 34);
        let s = s.push(Ability::Illuminate);
        assert(s.len() == 35);
        let s = s.push(Ability::Trace);
        assert(s.len() == 36);
        let s = s.push(Ability::HugePower);
        assert(s.len() == 37);
        let s = s.push(Ability::PoisonPoint);
        assert(s.len() == 38);
        let s = s.push(Ability::InnerFocus);
        assert(s.len() == 39);
        let s = s.push(Ability::MagmaArmor);
        assert(s.len() == 40);
        let s = s.push(Ability::WaterVeil);
        assert(s.len() == 41);
        let s = s.push(Ability::MagnetPull);
        assert(s.len() == 42);
        let s = s.push(Ability::Soundproof);
        assert(s.len() == 43);
        let s = s.push(Ability::RainDish);
        assert(s.len() == 44);
        let s = s.push(Ability::SandStream);
        assert(s.len() == 45);
        let s = s.push(Ability::Pressure);
        assert(s.len() == 46);
        let s = s.push(Ability::ThickFat);
        assert(s.len() == 47);
        let s = s.push(Ability::EarlyBird);
        assert(s.len() == 48);
        let s = s.push(Ability::FlameBody);
        assert(s.len() == 49);
        let s = s.push(Ability::RunAway);
        assert(s.len() == 50);
        let s = s.push(Ability::KeenEye);
        assert(s.len() == 51);
        let s = s.push(Ability::HyperCutter);
        assert(s.len() == 52);
        let s = s.push(Ability::Pickup);
        assert(s.len() == 53);
        let s = s.push(Ability::Truant);
        assert(s.len() == 54);
        let s = s.push(Ability::Hustle);
        assert(s.len() == 55);
        let s = s.push(Ability::CuteCharm);
        assert(s.len() == 56);
        let s = s.push(Ability::Plus);
        assert(s.len() == 57);
        let s = s.push(Ability::Minus);
        assert(s.len() == 58);
        let s = s.push(Ability::Forecast);
        assert(s.len() == 59);
        let s = s.push(Ability::StickyHold);
        assert(s.len() == 60);
        let s = s.push(Ability::ShedSkin);
        assert(s.len() == 61);
        let s = s.push(Ability::Guts);
        assert(s.len() == 62);
        let s = s.push(Ability::MarvelScale);
        assert(s.len() == 63);
        let s = s.push(Ability::LiquidOoze);
        assert(s.len() == 64);
        let s = s.push(Ability::Overgrow);
        assert(s.len() == 65);
        let s = s.push(Ability::Blaze);
        assert(s.len() == 66);
        let s = s.push(Ability::Torrent);
        assert(s.len() == 67);
        let s = s.push(Ability::Swarm);
        assert(s.len() == 68);
        let s = s.push(Ability::RockHead);
        assert(s.len() == 69);
        let s = s.push(Ability::Drought);
        assert(s.len() == 70);
        let s = s.push(Ability::ArenaTrap);
        assert(s.len() == 71);
        let s = s.push(Ability::VitalSpirit);
        assert(s.len() == 72);
        let s = s.push(Ability::WhiteSmoke);
        assert(s.len() == 73);
        let s = s.push(Ability::PurePower);
        assert(s.len() == 74);
        let s = s.push(Ability::ShellArmor);
        assert(s.len() == 75);
        let s = s.push(Ability::AirLock);
        assert(s.len() == 76);
        let s = s.push(Ability::TangledFeet);
        assert(s.len() == 77);
        let s = s.push(Ability::MotorDrive);
        assert(s.len() == 78);
        let s = s.push(Ability::Rivalry);
        assert(s.len() == 79);
        let s = s.push(Ability::Steadfast);
        assert(s.len() == 80);
        let s = s.push(Ability::SnowCloak);
        assert(s.len() == 81);
        let s = s.push(Ability::Gluttony);
        assert(s.len() == 82);
        let s = s.push(Ability::AngerPoint);
        assert(s.len() == 83);
        let s = s.push(Ability::Unburden);
        assert(s.len() == 84);
        let s = s.push(Ability::Heatproof);
        assert(s.len() == 85);
        let s = s.push(Ability::Simple);
        assert(s.len() == 86);
        let s = s.push(Ability::DrySkin);
        assert(s.len() == 87);
        let s = s.push(Ability::Download);
        assert(s.len() == 88);
        let s = s.push(Ability::IronFist);
        assert(s.len() == 89);
        let s = s.push(Ability::PoisonHeal);
        assert(s.len() == 90);
        let s = s.push(Ability::Adaptability);
        assert(s.len() == 91);
        let s = s.push(Ability::SkillLink);
        assert(s.len() == 92);
        let s = s.push(Ability::Hydration);
        assert(s.len() == 93);
        let s = s.push(Ability::SolarPower);
        assert(s.len() == 94);
        let s = s.push(Ability::QuickFeet);
        assert(s.len() == 95);
        let s = s.push(Ability::Normalize);
        assert(s.len() == 96);
        let s = s.push(Ability::Sniper);
        assert(s.len() == 97);
        let s = s.push(Ability::MagicGuard);
        assert(s.len() == 98);
        let s = s.push(Ability::NoGuard);
        assert(s.len() == 99);
        let s = s.push(Ability::Stall);
        assert(s.len() == 100);
        let s = s.push(Ability::Technician);
        assert(s.len() == 101);
        let s = s.push(Ability::LeafGuard);
        assert(s.len() == 102);
        let s = s.push(Ability::Klutz);
        assert(s.len() == 103);
        let s = s.push(Ability::MoldBreaker);
        assert(s.len() == 104);
        let s = s.push(Ability::SuperLuck);
        assert(s.len() == 105);
        let s = s.push(Ability::Aftermath);
        assert(s.len() == 106);
        let s = s.push(Ability::Anticipation);
        assert(s.len() == 107);
        let s = s.push(Ability::Forewarn);
        assert(s.len() == 108);
        let s = s.push(Ability::Unaware);
        assert(s.len() == 109);
        let s = s.push(Ability::TintedLens);
        assert(s.len() == 110);
        let s = s.push(Ability::Filter);
        assert(s.len() == 111);
        let s = s.push(Ability::SlowStart);
        assert(s.len() == 112);
        let s = s.push(Ability::Scrappy);
        assert(s.len() == 113);
        let s = s.push(Ability::StormDrain);
        assert(s.len() == 114);
        let s = s.push(Ability::IceBody);
        assert(s.len() == 115);
        let s = s.push(Ability::SolidRock);
        assert(s.len() == 116);
        let s = s.push(Ability::SnowWarning);
        assert(s.len() == 117);
        let s = s.push(Ability::HoneyGather);
        assert(s.len() == 118);
        let s = s.push(Ability::Frisk);
        assert(s.len() == 119);
        let s = s.push(Ability::Reckless);
        assert(s.len() == 120);
        let s = s.push(Ability::Multitype);
        assert(s.len() == 121);
        let s = s.push(Ability::FlowerGift);
        assert(s.len() == 122);
        let s = s.push(Ability::BadDreams);
        assert(s.len() == 123);
        let s = s.push(Ability::Pickpocket);
        assert(s.len() == 124);
        let s = s.push(Ability::SheerForce);
        assert(s.len() == 125);
        let s = s.push(Ability::Contrary);
        assert(s.len() == 126);
        let s = s.push(Ability::Unnerve);
        assert(s.len() == 127);
        let s = s.push(Ability::Defiant);
        assert(s.len() == 128);
        let s = s.push(Ability::Defeatist);
        assert(s.len() == 129);
        let s = s.push(Ability::CursedBody);
        assert(s.len() == 130);
        let s = s.push(Ability::Healer);
        assert(s.len() == 131);
        let s = s.push(Ability::FriendGuard);
        assert(s.len() == 132);
        let s = s.push(Ability::WeakArmor);
        assert(s.len() == 133);
        let s = s.push(Ability::HeavyMetal);
        assert(s.len() == 134);
        let s = s.push(Ability::LightMetal);
        assert(s.len() == 135);
        let s = s.push(Ability::Multiscale);
        assert(s.len() == 136);
        let s = s.push(Ability::ToxicBoost);
        assert(s.len() == 137);
        let s = s.push(Ability::FlareBoost);
        assert(s.len() == 138);
        let s = s.push(Ability::Harvest);
        assert(s.len() == 139);
        let s = s.push(Ability::Telepathy);
        assert(s.len() == 140);
        let s = s.push(Ability::Moody);
        assert(s.len() == 141);
        let s = s.push(Ability::Overcoat);
        assert(s.len() == 142);
        let s = s.push(Ability::PoisonTouch);
        assert(s.len() == 143);
        let s = s.push(Ability::Regenerator);
        assert(s.len() == 144);
        let s = s.push(Ability::BigPecks);
        assert(s.len() == 145);
        let s = s.push(Ability::SandRush);
        assert(s.len() == 146);
        let s = s.push(Ability::WonderSkin);
        assert(s.len() == 147);
        let s = s.push(Ability::Analytic);
        assert(s.len() == 148);
        let s = s.push(Ability::Illusion);
        assert(s.len() == 149);
        let s = s.push(Ability::Imposter);
        assert(s.len() == 150);
        let s = s.push(Ability::Infiltrator);
        assert(s.len() == 151);
        let s = s.push(Ability::Mummy);
        assert(s.len() == 152);
        let s = s.push(Ability::Moxie);
        assert(s.len() == 153);
        let s = s.push(Ability::Justified);
        assert(s.len() == 154);
        let s = s.push(Ability::Rattled);
        assert(s.len() == 155);
        let s = s.push(Ability::MagicBounce);
        assert(s.len() == 156);
        let s = s.push(Ability::SapSipper);
        assert(s.len() == 157);
        let s = s.push(Ability::Prankster);
        assert(s.len() == 158);
        let s = s.push(Ability::SandForce);
        assert(s.len() == 159);
        let s = s.push(Ability::IronBarbs);
        assert(s.len() == 160);
        let s = s.push(Ability::ZenMode);
        assert(s.len() == 161);
        let s = s.push(Ability::VictoryStar);
        assert(s.len() == 162);
        let s = s.push(Ability::Turboblaze);
        assert(s.len() == 163);
        let s = s.push(Ability::Teravolt);
        assert(s.len() == 164);
        assert(s == Self::spec_values());
    }

    proof fn lemma_round_trip(self) {
    }
}

impl FromVeekun for Ability {
    type Intermediate = u8;

    open spec fn spec_from_veekun(value: u8) -> Option<Self> {
        Self::spec_from_repr(value as i32)
    }

    fn from_veekun(value: u8) -> (r: Option<Self>) {
        Self::from_repr(value as i32)
    }
}
} // verus!
