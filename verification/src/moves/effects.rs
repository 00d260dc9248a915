//! The effects of moves.

use vstd::prelude::*;
use crate::enums::Enum;
use crate::repr::FromVeekun;

verus! {

/// The effect of a move or set of moves.
#[derive(Clone, Copy, Debug, PartialEq, Eq, Structural, Hash)]
pub enum Effect {
    RegularDamage,
    SleepTarget,
    ChancePoisonTarget,
    HealUserHalfInflicted,
    ChanceBurnTarget,
    ChanceFreezeTarget,
    ChanceParalyzeTarget,
    FaintUser,
    DreamEater,
    MirrorMove,
    RaiseUserAttack,
    RaiseUserDefense,
    RaiseUserSpecialAttack,
    RaiseUserEvasion,
    NeverMisses,
    LowerTargetAttack,
    LowerTargetDefense,
    LowerTargetSpeed,
    LowerTargetAccuracy,
    LowerTargetEvasion,
    Haze,
    Bide,
    Hit2To3TurnsThenConfuseUser,
    SwitchOutTarget,
    Hit2To5Times,
    Conversion,
    ChanceFlinchTarget,
    HealUserByHalfMaxHP,
    Toxic,
    PayDay,
    LightScreen,
    TriAttack,
    Rest,
    OneHitKO,
    RazorWind,
    SuperFang,
    DragonRage,
    SixteenthHP2To5Turns,
    IncreasedCritical,
    HitTwice,
    HalfRecoilIfMiss,
    Mist,
    FocusEnergy,
    QuarterRecoil,
    ConfuseTarget,
    RaiseUserAttack2,
    RaiseUserDefense2,
    RaiseUserSpeed2,
    RaiseUserSpecialAttack2,
    RaiseUserSpecialDefense2,
    Transform,
    LowerTargetAttack2,
    LowerTargetDefense2,
    LowerTargetSpeed2,
    LowerTargetSpecialDefense2,
    Reflect,
    PoisonTarget,
    ParalyzeTarget,
    ChanceLowerTargetAttack,
    ChanceLowerTargetDefense,
    ChanceLowerTargetSpeed,
    ChanceLowerTargetSpecialAttack,
    ChanceLowerTargetSpecialDefense,
    ChanceLowerTargetAccuracy,
    SkyAttack,
    ChanceConfuseTarget,
    Twineedle,
    VitalThrow,
    Substitute,
    RechargeNextTurn,
    Rage,
    Mimic,
    Metronome,
    LeechSeed,
    Splash,
    Disable,
    UserLevelDamage,
    Psywave,
    Counter,
    Encore,
    PainSplit,
    Snore,
    Conversion2,
    GuaranteeNextMoveHit,
    Sketch,
    SleepTalk,
    DestinyBond,
    MoreDamageWhenLessUserHP,
    Spite,
    FalseSwipe,
    CurePartyStatus,
    Fast,
    TripleKick,
    TakeTargetItem,
    PreventTargetLeaving,
    Nightmare,
    Minimize,
    Curse,
    PreventHitUser,
    Spikes,
    ResetTargetEvadeDisableGhostImmunity,
    PerishSong,
    Sandstorm,
    Endure,
    DoubleEachSuccessiveUseMod5Turns,
    Swagger,
    FuryCutter,
    Attract,
    Return,
    Present,
    Frustration,
    Safeguard,
    ChanceBurnTargetThawUser,
    Magnitude,
    BatonPass,
    Pursuit,
    RapidSpin,
    Sonicboom,
    HealUserByHalfMaxHPWeather,
    HiddenPower,
    RainDance,
    SunnyDay,
    ChanceRaiseUserDefense,
    ChanceRaiseUserAttack,
    ChanceRaiseUserAllStats,
    BellyDrum,
    PsychUp,
    MirrorCoat,
    SkullBash,
    Twister,
    Earthquake,
    HitTargetInTwoTurns,
    Gust,
    ChanceFlinchTargetDoubleMinimized,
    Solarbeam,
    Thunder,
    Teleport,
    BeatUp,
    Fly,
    DefenseCurl,
    FakeOut,
    Uproar,
    Stockpile,
    SpitUp,
    Swallow,
    Hail,
    Torment,
    Flatter,
    WillOWisp,
    Memento,
    Facade,
    FocusPunch,
    Smellingsalt,
    TargetUserThisTurn,
    NaturePower,
    Charge,
    Taunt,
    HelpingHand,
    SwapItems,
    RolePlay,
    Wish,
    Assist,
    Ingrain,
    Superpower,
    MagicCoat,
    Recycle,
    DoubleDamageIfUserHit,
    BrickBreak,
    Yawn,
    KnockOff,
    Endeavor,
    MoreDamageWhenMoreUserHP,
    SkillSwap,
    Imprison,
    Refresh,
    Grudge,
    Snatch,
    MoreDamageWhenTargetHeavier,
    SecretPower,
    ThirdRecoil,
    TeeterDance,
    BlazeKick,
    MudSport,
    PoisonFange,
    WeatherBall,
    LowerUserSpecialAttack2AfterDamage,
    LowerTargetAttackDefense,
    RaiseUserDefenseSpecialDefense,
    SkyUppercut,
    RaiseUserAttackDefense,
    IncreasedCriticalChancePoisonTarget,
    WaterSport,
    RaiseUserSpecialAttackSpecialDefense,
    RaiseUserAttackSpeed,
    Camouflage,
    Roost,
    Gravity,
    MiracleEye,
    WakeUpSlap,
    HammerArm,
    GyroBall,
    HealingWish,
    Brine,
    NaturalGift,
    Feint,
    DoubleIfTargetBerry,
    Tailwind,
    Accupressure,
    MetalBurst,
    UserSwitchOutAfterAttack,
    CloseCombat,
    Payback,
    Assurance,
    Embargo,
    Fling,
    PsychoShift,
    TrumpCard,
    HealBlock,
    MoreDamageWhenMoreTargetHP,
    PowerTrick,
    GastroAcid,
    LuckyChant,
    MeFirst,
    Copycat,
    PowerSwap,
    GuardSwap,
    Punishment,
    LastResort,
    WorrySeed,
    SuckerPunch,
    ToxicSpokes,
    HeartSwap,
    AquaRing,
    MagnetRise,
    FlareBlitz,
    Struggle,
    Dive,
    Dig,
    Surf,
    Defog,
    TrickRoom,
    Blizzard,
    Whirlpool,
    VoltTackle,
    Bounce,
    Captivate,
    StealthRock,
    Chatter,
    PlateDriveType,
    HeadSmash,
    LunarDance,
    SeedFlare,
    ShadowForce,
    FireFang,
    IceFang,
    ThunderFang,
    ChanceRaiseUserSpecialAttack,
    HoneClaws,
    WideGuard,
    GuardSplit,
    PowerSplit,
    WonderRoom,
    UseTargetDefenseNotSpecial,
    Venoshock,
    Autotomize,
    Telekinesis,
    MagicRoom,
    SmackDown,
    AlwaysCritical,
    FlameBurst,
    QuiverDance,
    MoreDamageWithUserTargetWeightRatio,
    Synchronoise,
    ElectroBall,
    Soak,
    FlameCharge,
    AcidSpray,
    FoulPlay,
    SimpleBeam,
    Entrainment,
    AfterYou,
    Round,
    EchoedVoice,
    IgnoresTargetStatModifiers,
    ClearSmog,
    StoredPower,
    QuickGuard,
    AllySwitch,
    ShellSmash,
    HealPulse,
    Hex,
    SkyDrop,
    ShiftGear,
    SwitchOutTargetAfterDamage,
    Incinerate,
    Quash,
    Growth,
    Acrobatics,
    ReflectType,
    Retaliate,
    FinalGambit,
    TailGlow,
    Coil,
    Bestow,
    WaterPledge,
    FirePledge,
    GrassPledge,
    WorkUp,
    CottonGuard,
    RelicSong,
    Glaciate,
    FreezeShock,
    IceBurn,
    VCreate,
    FusionFlare,
    FusionBolt,
    Hurricane,
}

impl Enum for Effect {
    open spec fn spec_values() -> Seq<Effect> {
        let s = Seq::<Effect>::empty();
        let s = s.push(Effect::RegularDamage);
        let s = s.push(Effect::SleepTarget);
        let s = s.push(Effect::ChancePoisonTarget);
        let s = s.push(Effect::HealUserHalfInflicted);
        let s = s.push(Effect::ChanceBurnTarget);
        let s = s.push(Effect::ChanceFreezeTarget);
        let s = s.push(Effect::ChanceParalyzeTarget);
        let s = s.push(Effect::FaintUser);
        let s = s.push(Effect::DreamEater);
        let s = s.push(Effect::MirrorMove);
        let s = s.push(Effect::RaiseUserAttack);
        let s = s.push(Effect::RaiseUserDefense);
        let s = s.push(Effect::RaiseUserSpecialAttack);
        let s = s.push(Effect::RaiseUserEvasion);
        let s = s.push(Effect::NeverMisses);
        let s = s.push(Effect::LowerTargetAttack);
        let s = s.push(Effect::LowerTargetDefense);
        let s = s.push(Effect::LowerTargetSpeed);
        let s = s.push(Effect::LowerTargetAccuracy);
        let s = s.push(Effect::LowerTargetEvasion);
        let s = s.push(Effect::Haze);
        let s = s.push(Effect::Bide);
        let s = s.push(Effect::Hit2To3TurnsThenConfuseUser);
        let s = s.push(Effect::SwitchOutTarget);
        let s = s.push(Effect::Hit2To5Times);
        let s = s.push(Effect::Conversion);
        let s = s.push(Effect::ChanceFlinchTarget);
        let s = s.push(Effect::HealUserByHalfMaxHP);
        let s = s.push(Effect::Toxic);
        let s = s.push(Effect::PayDay);
        let s = s.push(Effect::LightScreen);
        let s = s.push(Effect::TriAttack);
        let s = s.push(Effect::Rest);
        let s = s.push(Effect::OneHitKO);
        let s = s.push(Effect::RazorWind);
        let s = s.push(Effect::SuperFang);
        let s = s.push(Effect::DragonRage);
        let s = s.push(Effect::SixteenthHP2To5Turns);
        let s = s.push(Effect::IncreasedCritical);
        let s = s.push(Effect::HitTwice);
        let s = s.push(Effect::HalfRecoilIfMiss);
        let s = s.push(Effect::Mist);
        let s = s.push(Effect::FocusEnergy);
        let s = s.push(Effect::QuarterRecoil);
        let s = s.push(Effect::ConfuseTarget);
        let s = s.push(Effect::RaiseUserAttack2);
        let s = s.push(Effect::RaiseUserDefense2);
        let s = s.push(Effect::RaiseUserSpeed2);
        let s = s.push(Effect::RaiseUserSpecialAttack2);
        let s = s.push(Effect::RaiseUserSpecialDefense2);
        let s = s.push(Effect::Transform);
        let s = s.push(Effect::LowerTargetAttack2);
        let s = s.push(Effect::LowerTargetDefense2);
        let s = s.push(Effect::LowerTargetSpeed2);
        let s = s.push(Effect::LowerTargetSpecialDefense2);
        let s = s.push(Effect::Reflect);
        let s = s.push(Effect::PoisonTarget);
        let s = s.push(Effect::ParalyzeTarget);
        let s = s.push(Effect::ChanceLowerTargetAttack);
        let s = s.push(Effect::ChanceLowerTargetDefense);
        let s = s.push(Effect::ChanceLowerTargetSpeed);
        let s = s.push(Effect::ChanceLowerTargetSpecialAttack);
        let s = s.push(Effect::ChanceLowerTargetSpecialDefense);
        let s = s.push(Effect::ChanceLowerTargetAccuracy);
        let s = s.push(Effect::SkyAttack);
        let s = s.push(Effect::ChanceConfuseTarget);
        let s = s.push(Effect::Twineedle);
        let s = s.push(Effect::VitalThrow);
        let s = s.push(Effect::Substitute);
        let s = s.push(Effect::RechargeNextTurn);
        let s = s.push(Effect::Rage);
        let s = s.push(Effect::Mimic);
        let s = s.push(Effect::Metronome);
        let s = s.push(Effect::LeechSeed);
        let s = s.push(Effect::Splash);
        let s = s.push(Effect::Disable);
        let s = s.push(Effect::UserLevelDamage);
        let s = s.push(Effect::Psywave);
        let s = s.push(Effect::Counter);
        let s = s.push(Effect::Encore);
        let s = s.push(Effect::PainSplit);
        let s = s.push(Effect::Snore);
        let s = s.push(Effect::Conversion2);
        let s = s.push(Effect::GuaranteeNextMoveHit);
        let s = s.push(Effect::Sketch);
        let s = s.push(Effect::SleepTalk);
        let s = s.push(Effect::DestinyBond);
        let s = s.push(Effect::MoreDamageWhenLessUserHP);
        let s = s.push(Effect::Spite);
        let s = s.push(Effect::FalseSwipe);
        let s = s.push(Effect::CurePartyStatus);
        let s = s.push(Effect::Fast);
        let s = s.push(Effect::TripleKick);
        let s = s.push(Effect::TakeTargetItem);
        let s = s.push(Effect::PreventTargetLeaving);
        let s = s.push(Effect::Nightmare);
        let s = s.push(Effect::Minimize);
        let s = s.push(Effect::Curse);
        let s = s.push(Effect::PreventHitUser);
        let s = s.push(Effect::Spikes);
        let s = s.push(Effect::ResetTargetEvadeDisableGhostImmunity);
        let s = s.push(Effect::PerishSong);
        let s = s.push(Effect::Sandstorm);
        let s = s.push(Effect::Endure);
        let s = s.push(Effect::DoubleEachSuccessiveUseMod5Turns);
        let s = s.push(Effect::Swagger);
        let s = s.push(Effect::FuryCutter);
        let s = s.push(Effect::Attract);
        let s = s.push(Effect::Return);
        let s = s.push(Effect::Present);
        let s = s.push(Effect::Frustration);
        let s = s.push(Effect::Safeguard);
        let s = s.push(Effect::ChanceBurnTargetThawUser);
        let s = s.push(Effect::Magnitude);
        let s = s.push(Effect::BatonPass);
        let s = s.push(Effect::Pursuit);
        let s = s.push(Effect::RapidSpin);
        let s = s.push(Effect::Sonicboom);
        let s = s.push(Effect::HealUserByHalfMaxHPWeather);
        let s = s.push(Effect::HiddenPower);
        let s = s.push(Effect::RainDance);
        let s = s.push(Effect::SunnyDay);
        let s = s.push(Effect::ChanceRaiseUserDefense);
        let s = s.push(Effect::ChanceRaiseUserAttack);
        let s = s.push(Effect::ChanceRaiseUserAllStats);
        let s = s.push(Effect::BellyDrum);
        let s = s.push(Effect::PsychUp);
        let s = s.push(Effect::MirrorCoat);
        let s = s.push(Effect::SkullBash);
        let s = s.push(Effect::Twister);
        let s = s.push(Effect::Earthquake);
        let s = s.push(Effect::HitTargetInTwoTurns);
        let s = s.push(Effect::Gust);
        let s = s.push(Effect::ChanceFlinchTargetDoubleMinimized);
        let s = s.push(Effect::Solarbeam);
        let s = s.push(Effect::Thunder);
        let s = s.push(Effect::Teleport);
        let s = s.push(Effect::BeatUp);
        let s = s.push(Effect::Fly);
        let s = s.push(Effect::DefenseCurl);
        let s = s.push(Effect::FakeOut);
        let s = s.push(Effect::Uproar);
        let s = s.push(Effect::Stockpile);
        let s = s.push(Effect::SpitUp);
        let s = s.push(Effect::Swallow);
        let s = s.push(Effect::Hail);
        let s = s.push(Effect::Torment);
        let s = s.push(Effect::Flatter);
        let s = s.push(Effect::WillOWisp);
        let s = s.push(Effect::Memento);
        let s = s.push(Effect::Facade);
        let s = s.push(Effect::FocusPunch);
        let s = s.push(Effect::Smellingsalt);
        let s = s.push(Effect::TargetUserThisTurn);
        let s = s.push(Effect::NaturePower);
        let s = s.push(Effect::Charge);
        let s = s.push(Effect::Taunt);
        let s = s.push(Effect::HelpingHand);
        let s = s.push(Effect::SwapItems);
        let s = s.push(Effect::RolePlay);
        let s = s.push(Effect::Wish);
        let s = s.push(Effect::Assist);
        let s = s.push(Effect::Ingrain);
        let s = s.push(Effect::Superpower);
        let s = s.push(Effect::MagicCoat);
        let s = s.push(Effect::Recycle);
        let s = s.push(Effect::DoubleDamageIfUserHit);
        let s = s.push(Effect::BrickBreak);
        let s = s.push(Effect::Yawn);
        let s = s.push(Effect::KnockOff);
        let s = s.push(Effect::Endeavor);
        let s = s.push(Effect::MoreDamageWhenMoreUserHP);
        let s = s.push(Effect::SkillSwap);
        let s = s.push(Effect::Imprison);
        let s = s.push(Effect::Refresh);
        let s = s.push(Effect::Grudge);
        let s = s.push(Effect::Snatch);
        let s = s.push(Effect::MoreDamageWhenTargetHeavier);
        let s = s.push(Effect::SecretPower);
        let s = s.push(Effect::ThirdRecoil);
        let s = s.push(Effect::TeeterDance);
        let s = s.push(Effect::BlazeKick);
        let s = s.push(Effect::MudSport);
        let s = s.push(Effect::PoisonFange);
        let s = s.push(Effect::WeatherBall);
        let s = s.push(Effect::LowerUserSpecialAttack2AfterDamage);
        let s = s.push(Effect::LowerTargetAttackDefense);
        let s = s.push(Effect::RaiseUserDefenseSpecialDefense);
        let s = s.push(Effect::SkyUppercut);
        let s = s.push(Effect::RaiseUserAttackDefense);
        let s = s.push(Effect::IncreasedCriticalChancePoisonTarget);
        let s = s.push(Effect::WaterSport);
        let s = s.push(Effect::RaiseUserSpecialAttackSpecialDefense);
        let s = s.push(Effect::RaiseUserAttackSpeed);
        let s = s.push(Effect::Camouflage);
        let s = s.push(Effect::Roost);
        let s = s.push(Effect::Gravity);
        let s = s.push(Effect::MiracleEye);
        let s = s.push(Effect::WakeUpSlap);
        let s = s.push(Effect::HammerArm);
        let s = s.push(Effect::GyroBall);
        let s = s.push(Effect::HealingWish);
        let s = s.push(Effect::Brine);
        let s = s.push(Effect::NaturalGift);
        let s = s.push(Effect::Feint);
        let s = s.push(Effect::DoubleIfTargetBerry);
        let s = s.push(Effect::Tailwind);
        let s = s.push(Effect::Accupressure);
        let s = s.push(Effect::MetalBurst);
        let s = s.push(Effect::UserSwitchOutAfterAttack);
        let s = s.push(Effect::CloseCombat);
        let s = s.push(Effect::Payback);
        let s = s.push(Effect::Assurance);
        let s = s.push(Effect::Embargo);
        let s = s.push(Effect::Fling);
        let s = s.push(Effect::PsychoShift);
        let s = s.push(Effect::TrumpCard);
        let s = s.push(Effect::HealBlock);
        let s = s.push(Effect::MoreDamageWhenMoreTargetHP);
        let s = s.push(Effect::PowerTrick);
        let s = s.push(Effect::GastroAcid);
        let s = s.push(Effect::LuckyChant);
        let s = s.push(Effect::MeFirst);
        let s = s.push(Effect::Copycat);
        let s = s.push(Effect::PowerSwap);
        let s = s.push(Effect::GuardSwap);
        let s = s.push(Effect::Punishment);
        let s = s.push(Effect::LastResort);
        let s = s.push(Effect::WorrySeed);
        let s = s.push(Effect::SuckerPunch);
        let s = s.push(Effect::ToxicSpokes);
        let s = s.push(Effect::HeartSwap);
        let s = s.push(Effect::AquaRing);
        let s = s.push(Effect::MagnetRise);
        let s = s.push(Effect::FlareBlitz);
        let s = s.push(Effect::Struggle);
        let s = s.push(Effect::Dive);
        let s = s.push(Effect::Dig);
        let s = s.push(Effect::Surf);
        let s = s.push(Effect::Defog);
        let s = s.push(Effect::TrickRoom);
        let s = s.push(Effect::Blizzard);
        let s = s.push(Effect::Whirlpool);
        let s = s.push(Effect::VoltTackle);
        let s = s.push(Effect::Bounce);
        let s = s.push(Effect::Captivate);
        let s = s.push(Effect::StealthRock);
        let s = s.push(Effect::Chatter);
        let s = s.push(Effect::PlateDriveType);
        let s = s.push(Effect::HeadSmash);
        let s = s.push(Effect::LunarDance);
        let s = s.push(Effect::SeedFlare);
        let s = s.push(Effect::ShadowForce);
        let s = s.push(Effect::FireFang);
        let s = s.push(Effect::IceFang);
        let s = s.push(Effect::ThunderFang);
        let s = s.push(Effect::ChanceRaiseUserSpecialAttack);
        let s = s.push(Effect::HoneClaws);
        let s = s.push(Effect::WideGuard);
        let s = s.push(Effect::GuardSplit);
        let s = s.push(Effect::PowerSplit);
        let s = s.push(Effect::WonderRoom);
        let s = s.push(Effect::UseTargetDefenseNotSpecial);
        let s = s.push(Effect::Venoshock);
        let s = s.push(Effect::Autotomize);
        let s = s.push(Effect::Telekinesis);
        let s = s.push(Effect::MagicRoom);
        let s = s.push(Effect::SmackDown);
        let s = s.push(Effect::AlwaysCritical);
        let s = s.push(Effect::FlameBurst);
        let s = s.push(Effect::QuiverDance);
        let s = s.push(Effect::MoreDamageWithUserTargetWeightRatio);
        let s = s.push(Effect::Synchronoise);
        let s = s.push(Effect::ElectroBall);
        let s = s.push(Effect::Soak);
        let s = s.push(Effect::FlameCharge);
        let s = s.push(Effect::AcidSpray);
        let s = s.push(Effect::FoulPlay);
        let s = s.push(Effect::SimpleBeam);
        let s = s.push(Effect::Entrainment);
        let s = s.push(Effect::AfterYou);
        let s = s.push(Effect::Round);
        let s = s.push(Effect::EchoedVoice);
        let s = s.push(Effect::IgnoresTargetStatModifiers);
        let s = s.push(Effect::ClearSmog);
        let s = s.push(Effect::StoredPower);
        let s = s.push(Effect::QuickGuard);
        let s = s.push(Effect::AllySwitch);
        let s = s.push(Effect::ShellSmash);
        let s = s.push(Effect::HealPulse);
        let s = s.push(Effect::Hex);
        let s = s.push(Effect::SkyDrop);
        let s = s.push(Effect::ShiftGear);
        let s = s.push(Effect::SwitchOutTargetAfterDamage);
        let s = s.push(Effect::Incinerate);
        let s = s.push(Effect::Quash);
        let s = s.push(Effect::Growth);
        let s = s.push(Effect::Acrobatics);
        let s = s.push(Effect::ReflectType);
        let s = s.push(Effect::Retaliate);
        let s = s.push(Effect::FinalGambit);
        let s = s.push(Effect::TailGlow);
        let s = s.push(Effect::Coil);
        let s = s.push(Effect::Bestow);
        let s = s.push(Effect::WaterPledge);
        let s = s.push(Effect::FirePledge);
        let s = s.push(Effect::GrassPledge);
        let s = s.push(Effect::WorkUp);
        let s = s.push(Effect::CottonGuard);
        let s = s.push(Effect::RelicSong);
        let s = s.push(Effect::Glaciate);
        let s = s.push(Effect::FreezeShock);
        let s = s.push(Effect::IceBurn);
        let s = s.push(Effect::VCreate);
        let s = s.push(Effect::FusionFlare);
        let s = s.push(Effect::FusionBolt);
        let s = s.push(Effect::Hurricane);
        s
    }

    fn values() -> (v: Vec<Effect>) {
        let mut v: Vec<Effect> = Vec::new();
        v.push(Effect::RegularDamage);
        v.push(Effect::SleepTarget);
        v.push(Effect::ChancePoisonTarget);
        v.push(Effect::HealUserHalfInflicted);
        v.push(Effect::ChanceBurnTarget);
        v.push(Effect::ChanceFreezeTarget);
        v.push(Effect::ChanceParalyzeTarget);
        v.push(Effect::FaintUser);
        v.push(Effect::DreamEater);
        v.push(Effect::MirrorMove);
        v.push(Effect::RaiseUserAttack);
        v.push(Effect::RaiseUserDefense);
        v.push(Effect::RaiseUserSpecialAttack);
        v.push(Effect::RaiseUserEvasion);
        v.push(Effect::NeverMisses);
        v.push(Effect::LowerTargetAttack);
        v.push(Effect::LowerTargetDefense);
        v.push(Effect::LowerTargetSpeed);
        v.push(Effect::LowerTargetAccuracy);
        v.push(Effect::LowerTargetEvasion);
        v.push(Effect::Haze);
        v.push(Effect::Bide);
        v.push(Effect::Hit2To3TurnsThenConfuseUser);
        v.push(Effect::SwitchOutTarget);
        v.push(Effect::Hit2To5Times);
        v.push(Effect::Conversion);
        v.push(Effect::ChanceFlinchTarget);
        v.push(Effect::HealUserByHalfMaxHP);
        v.push(Effect::Toxic);
        v.push(Effect::PayDay);
        v.push(Effect::LightScreen);
        v.push(Effect::TriAttack);
        v.push(Effect::Rest);
        v.push(Effect::OneHitKO);
        v.push(Effect::RazorWind);
        v.push(Effect::SuperFang);
        v.push(Effect::DragonRage);
        v.push(Effect::SixteenthHP2To5Turns);
        v.push(Effect::IncreasedCritical);
        v.push(Effect::HitTwice);
        v.push(Effect::HalfRecoilIfMiss);
        v.push(Effect::Mist);
        v.push(Effect::FocusEnergy);
        v.push(Effect::QuarterRecoil);
        v.push(Effect::ConfuseTarget);
        v.push(Effect::RaiseUserAttack2);
        v.push(Effect::RaiseUserDefense2);
        v.push(Effect::RaiseUserSpeed2);
        v.push(Effect::RaiseUserSpecialAttack2);
        v.push(Effect::RaiseUserSpecialDefense2);
        v.push(Effect::Transform);
        v.push(Effect::LowerTargetAttack2);
        v.push(Effect::LowerTargetDefense2);
        v.push(Effect::LowerTargetSpeed2);
        v.push(Effect::LowerTargetSpecialDefense2);
        v.push(Effect::Reflect);
        v.push(Effect::PoisonTarget);
        v.push(Effect::ParalyzeTarget);
        v.push(Effect::ChanceLowerTargetAttack);
        v.push(Effect::ChanceLowerTargetDefense);
        v.push(Effect::ChanceLowerTargetSpeed);
        v.push(Effect::ChanceLowerTargetSpecialAttack);
        v.push(Effect::ChanceLowerTargetSpecialDefense);
        v.push(Effect::ChanceLowerTargetAccuracy);
        v.push(Effect::SkyAttack);
        v.push(Effect::ChanceConfuseTarget);
        v.push(Effect::Twineedle);
        v.push(Effect::VitalThrow);
        v.push(Effect::Substitute);
        v.push(Effect::RechargeNextTurn);
        v.push(Effect::Rage);
        v.push(Effect::Mimic);
        v.push(Effect::Metronome);
        v.push(Effect::LeechSeed);
        v.push(Effect::Splash);
        v.push(Effect::Disable);
        v.push(Effect::UserLevelDamage);
        v.push(Effect::Psywave);
        v.push(Effect::Counter);
        v.push(Effect::Encore);
        v.push(Effect::PainSplit);
        v.push(Effect::Snore);
        v.push(Effect::Conversion2);
        v.push(Effect::GuaranteeNextMoveHit);
        v.push(Effect::Sketch);
        v.push(Effect::SleepTalk);
        v.push(Effect::DestinyBond);
        v.push(Effect::MoreDamageWhenLessUserHP);
        v.push(Effect::Spite);
        v.push(Effect::FalseSwipe);
        v.push(Effect::CurePartyStatus);
        v.push(Effect::Fast);
        v.push(Effect::TripleKick);
        v.push(Effect::TakeTargetItem);
        v.push(Effect::PreventTargetLeaving);
        v.push(Effect::Nightmare);
        v.push(Effect::Minimize);
        v.push(Effect::Curse);
        v.push(Effect::PreventHitUser);
        v.push(Effect::Spikes);
        v.push(Effect::ResetTargetEvadeDisableGhostImmunity);
        v.push(Effect::PerishSong);
        v.push(Effect::Sandstorm);
        v.push(Effect::Endure);
        v.push(Effect::DoubleEachSuccessiveUseMod5Turns);
        v.push(Effect::Swagger);
        v.push(Effect::FuryCutter);
        v.push(Effect::Attract);
        v.push(Effect::Return);
        v.push(Effect::Present);
        v.push(Effect::Frustration);
        v.push(Effect::Safeguard);
        v.push(Effect::ChanceBurnTargetThawUser);
        v.push(Effect::Magnitude);
        v.push(Effect::BatonPass);
        v.push(Effect::Pursuit);
        v.push(Effect::RapidSpin);
        v.push(Effect::Sonicboom);
        v.push(Effect::HealUserByHalfMaxHPWeather);
        v.push(Effect::HiddenPower);
        v.push(Effect::RainDance);
        v.push(Effect::SunnyDay);
        v.push(Effect::ChanceRaiseUserDefense);
        v.push(Effect::ChanceRaiseUserAttack);
        v.push(Effect::ChanceRaiseUserAllStats);
        v.push(Effect::BellyDrum);
        v.push(Effect::PsychUp);
        v.push(Effect::MirrorCoat);
        v.push(Effect::SkullBash);
        v.push(Effect::Twister);
        v.push(Effect::Earthquake);
        v.push(Effect::HitTargetInTwoTurns);
        v.push(Effect::Gust);
        v.push(Effect::ChanceFlinchTargetDoubleMinimized);
        v.push(Effect::Solarbeam);
        v.push(Effect::Thunder);
        v.push(Effect::Teleport);
        v.push(Effect::BeatUp);
        v.push(Effect::Fly);
        v.push(Effect::DefenseCurl);
        v.push(Effect::FakeOut);
        v.push(Effect::Uproar);
        v.push(Effect::Stockpile);
        v.push(Effect::SpitUp);
        v.push(Effect::Swallow);
        v.push(Effect::Hail);
        v.push(Effect::Torment);
        v.push(Effect::Flatter);
        v.push(Effect::WillOWisp);
        v.push(Effect::Memento);
        v.push(Effect::Facade);
        v.push(Effect::FocusPunch);
        v.push(Effect::Smellingsalt);
        v.push(Effect::TargetUserThisTurn);
        v.push(Effect::NaturePower);
        v.push(Effect::Charge);
        v.push(Effect::Taunt);
        v.push(Effect::HelpingHand);
        v.push(Effect::SwapItems);
        v.push(Effect::RolePlay);
        v.push(Effect::Wish);
        v.push(Effect::Assist);
        v.push(Effect::Ingrain);
        v.push(Effect::Superpower);
        v.push(Effect::MagicCoat);
        v.push(Effect::Recycle);
        v.push(Effect::DoubleDamageIfUserHit);
        v.push(Effect::BrickBreak);
        v.push(Effect::Yawn);
        v.push(Effect::KnockOff);
        v.push(Effect::Endeavor);
        v.push(Effect::MoreDamageWhenMoreUserHP);
        v.push(Effect::SkillSwap);
        v.push(Effect::Imprison);
        v.push(Effect::Refresh);
        v.push(Effect::Grudge);
        v.push(Effect::Snatch);
        v.push(Effect::MoreDamageWhenTargetHeavier);
        v.push(Effect::SecretPower);
        v.push(Effect::ThirdRecoil);
        v.push(Effect::TeeterDance);
        v.push(Effect::BlazeKick);
        v.push(Effect::MudSport);
        v.push(Effect::PoisonFange);
        v.push(Effect::WeatherBall);
        v.push(Effect::LowerUserSpecialAttack2AfterDamage);
        v.push(Effect::LowerTargetAttackDefense);
        v.push(Effect::RaiseUserDefenseSpecialDefense);
        v.push(Effect::SkyUppercut);
        v.push(Effect::RaiseUserAttackDefense);
        v.push(Effect::IncreasedCriticalChancePoisonTarget);
        v.push(Effect::WaterSport);
        v.push(Effect::RaiseUserSpecialAttackSpecialDefense);
        v.push(Effect::RaiseUserAttackSpeed);
        v.push(Effect::Camouflage);
        v.push(Effect::Roost);
        v.push(Effect::Gravity);
        v.push(Effect::MiracleEye);
        v.push(Effect::WakeUpSlap);
        v.push(Effect::HammerArm);
        v.push(Effect::GyroBall);
        v.push(Effect::HealingWish);
        v.push(Effect::Brine);
        v.push(Effect::NaturalGift);
        v.push(Effect::Feint);
        v.push(Effect::DoubleIfTargetBerry);
        v.push(Effect::Tailwind);
        v.push(Effect::Accupressure);
        v.push(Effect::MetalBurst);
        v.push(Effect::UserSwitchOutAfterAttack);
        v.push(Effect::CloseCombat);
        v.push(Effect::Payback);
        v.push(Effect::Assurance);
        v.push(Effect::Embargo);
        v.push(Effect::Fling);
        v.push(Effect::PsychoShift);
        v.push(Effect::TrumpCard);
        v.push(Effect::HealBlock);
        v.push(Effect::MoreDamageWhenMoreTargetHP);
        v.push(Effect::PowerTrick);
        v.push(Effect::GastroAcid);
        v.push(Effect::LuckyChant);
        v.push(Effect::MeFirst);
        v.push(Effect::Copycat);
        v.push(Effect::PowerSwap);
        v.push(Effect::GuardSwap);
        v.push(Effect::Punishment);
        v.push(Effect::LastResort);
        v.push(Effect::WorrySeed);
        v.push(Effect::SuckerPunch);
        v.push(Effect::ToxicSpokes);
        v.push(Effect::HeartSwap);
        v.push(Effect::AquaRing);
        v.push(Effect::MagnetRise);
        v.push(Effect::FlareBlitz);
        v.push(Effect::Struggle);
        v.push(Effect::Dive);
        v.push(Effect::Dig);
        v.push(Effect::Surf);
        v.push(Effect::Defog);
        v.push(Effect::TrickRoom);
        v.push(Effect::Blizzard);
        v.push(Effect::Whirlpool);
        v.push(Effect::VoltTackle);
        v.push(Effect::Bounce);
        v.push(Effect::Captivate);
        v.push(Effect::StealthRock);
        v.push(Effect::Chatter);
        v.push(Effect::PlateDriveType);
        v.push(Effect::HeadSmash);
        v.push(Effect::LunarDance);
        v.push(Effect::SeedFlare);
        v.push(Effect::ShadowForce);
        v.push(Effect::FireFang);
        v.push(Effect::IceFang);
        v.push(Effect::ThunderFang);
        v.push(Effect::ChanceRaiseUserSpecialAttack);
        v.push(Effect::HoneClaws);
        v.push(Effect::WideGuard);
        v.push(Effect::GuardSplit);
        v.push(Effect::PowerSplit);
        v.push(Effect::WonderRoom);
        v.push(Effect::UseTargetDefenseNotSpecial);
        v.push(Effect::Venoshock);
        v.push(Effect::Autotomize);
        v.push(Effect::Telekinesis);
        v.push(Effect::MagicRoom);
        v.push(Effect::SmackDown);
        v.push(Effect::AlwaysCritical);
        v.push(Effect::FlameBurst);
        v.push(Effect::QuiverDance);
        v.push(Effect::MoreDamageWithUserTargetWeightRatio);
        v.push(Effect::Synchronoise);
        v.push(Effect::ElectroBall);
        v.push(Effect::Soak);
        v.push(Effect::FlameCharge);
        v.push(Effect::AcidSpray);
        v.push(Effect::FoulPlay);
        v.push(Effect::SimpleBeam);
        v.push(Effect::Entrainment);
        v.push(Effect::AfterYou);
        v.push(Effect::Round);
        v.push(Effect::EchoedVoice);
        v.push(Effect::IgnoresTargetStatModifiers);
        v.push(Effect::ClearSmog);
        v.push(Effect::StoredPower);
        v.push(Effect::QuickGuard);
        v.push(Effect::AllySwitch);
        v.push(Effect::ShellSmash);
        v.push(Effect::HealPulse);
        v.push(Effect::Hex);
        v.push(Effect::SkyDrop);
        v.push(Effect::ShiftGear);
        v.push(Effect::SwitchOutTargetAfterDamage);
        v.push(Effect::Incinerate);
        v.push(Effect::Quash);
        v.push(Effect::Growth);
        v.push(Effect::Acrobatics);
        v.push(Effect::ReflectType);
        v.push(Effect::Retaliate);
        v.push(Effect::FinalGambit);
        v.push(Effect::TailGlow);
        v.push(Effect::Coil);
        v.push(Effect::Bestow);
        v.push(Effect::WaterPledge);
        v.push(Effect::FirePledge);
        v.push(Effect::GrassPledge);
        v.push(Effect::WorkUp);
        v.push(Effect::CottonGuard);
        v.push(Effect::RelicSong);
        v.push(Effect::Glaciate);
        v.push(Effect::FreezeShock);
        v.push(Effect::IceBurn);
        v.push(Effect::VCreate);
        v.push(Effect::FusionFlare);
        v.push(Effect::FusionBolt);
        v.push(Effect::Hurricane);
        v
    }
    open spec fn spec_repr(self) -> i32 {
        match self {
            Effect::RegularDamage => 1,
            Effect::SleepTarget => 2,
            Effect::ChancePoisonTarget => 3,
            Effect::HealUserHalfInflicted => 4,
            Effect::ChanceBurnTarget => 5,
            Effect::ChanceFreezeTarget => 6,
            Effect::ChanceParalyzeTarget => 7,
            Effect::FaintUser => 8,
            Effect::DreamEater => 9,
            Effect::MirrorMove => 10,
            Effect::RaiseUserAttack => 11,
            Effect::RaiseUserDefense => 12,
            Effect::RaiseUserSpecialAttack => 14,
            Effect::RaiseUserEvasion => 17,
            Effect::NeverMisses => 18,
            Effect::LowerTargetAttack => 19,
            Effect::LowerTargetDefense => 20,
            Effect::LowerTargetSpeed => 21,
            Effect::LowerTargetAccuracy => 24,
            Effect::LowerTargetEvasion => 25,
            Effect::Haze => 26,
            Effect::Bide => 27,
            Effect::Hit2To3TurnsThenConfuseUser => 28,
            Effect::SwitchOutTarget => 29,
            Effect::Hit2To5Times => 30,
            Effect::Conversion => 31,
            Effect::ChanceFlinchTarget => 32,
            Effect::HealUserByHalfMaxHP => 33,
            Effect::Toxic => 34,
            Effect::PayDay => 35,
            Effect::LightScreen => 36,
            Effect::TriAttack => 37,
            Effect::Rest => 38,
            Effect::OneHitKO => 39,
            Effect::RazorWind => 40,
            Effect::SuperFang => 41,
            Effect::DragonRage => 42,
            Effect::SixteenthHP2To5Turns => 43,
            Effect::IncreasedCritical => 44,
            Effect::HitTwice => 45,
            Effect::HalfRecoilIfMiss => 46,
            Effect::Mist => 47,
            Effect::FocusEnergy => 48,
            Effect::QuarterRecoil => 49,
            Effect::ConfuseTarget => 50,
            Effect::RaiseUserAttack2 => 51,
            Effect::RaiseUserDefense2 => 52,
            Effect::RaiseUserSpeed2 => 53,
            Effect::RaiseUserSpecialAttack2 => 54,
            Effect::RaiseUserSpecialDefense2 => 55,
            Effect::Transform => 58,
            Effect::LowerTargetAttack2 => 59,
            Effect::LowerTargetDefense2 => 60,
            Effect::LowerTargetSpeed2 => 61,
            Effect::LowerTargetSpecialDefense2 => 63,
            Effect::Reflect => 66,
            Effect::PoisonTarget => 67,
            Effect::ParalyzeTarget => 68,
            Effect::ChanceLowerTargetAttack => 69,
            Effect::ChanceLowerTargetDefense => 70,
            Effect::ChanceLowerTargetSpeed => 71,
            Effect::ChanceLowerTargetSpecialAttack => 72,
            Effect::ChanceLowerTargetSpecialDefense => 73,
            Effect::ChanceLowerTargetAccuracy => 74,
            Effect::SkyAttack => 76,
            Effect::ChanceConfuseTarget => 77,
            Effect::Twineedle => 78,
            Effect::VitalThrow => 79,
            Effect::Substitute => 80,
            Effect::RechargeNextTurn => 81,
            Effect::Rage => 82,
            Effect::Mimic => 83,
            Effect::Metronome => 84,
            Effect::LeechSeed => 85,
            Effect::Splash => 86,
            Effect::Disable => 87,
            Effect::UserLevelDamage => 88,
            Effect::Psywave => 89,
            Effect::Counter => 90,
            Effect::Encore => 91,
            Effect::PainSplit => 92,
            Effect::Snore => 93,
            Effect::Conversion2 => 94,
            Effect::GuaranteeNextMoveHit => 95,
            Effect::Sketch => 96,
            Effect::SleepTalk => 98,
            Effect::DestinyBond => 99,
            Effect::MoreDamageWhenLessUserHP => 100,
            Effect::Spite => 101,
            Effect::FalseSwipe => 102,
            Effect::CurePartyStatus => 103,
            Effect::Fast => 104,
            Effect::TripleKick => 105,
            Effect::TakeTargetItem => 106,
            Effect::PreventTargetLeaving => 107,
            Effect::Nightmare => 108,
            Effect::Minimize => 109,
            Effect::Curse => 110,
            Effect::PreventHitUser => 112,
            Effect::Spikes => 113,
            Effect::ResetTargetEvadeDisableGhostImmunity => 114,
            Effect::PerishSong => 115,
            Effect::Sandstorm => 116,
            Effect::Endure => 117,
            Effect::DoubleEachSuccessiveUseMod5Turns => 118,
            Effect::Swagger => 119,
            Effect::FuryCutter => 120,
            Effect::Attract => 121,
            Effect::Return => 122,
            Effect::Present => 123,
            Effect::Frustration => 124,
            Effect::Safeguard => 125,
            Effect::ChanceBurnTargetThawUser => 126,
            Effect::Magnitude => 127,
            Effect::BatonPass => 128,
            Effect::Pursuit => 129,
            Effect::RapidSpin => 130,
            Effect::Sonicboom => 131,
            Effect::HealUserByHalfMaxHPWeather => 133,
            Effect::HiddenPower => 136,
            Effect::RainDance => 137,
            Effect::SunnyDay => 138,
            Effect::ChanceRaiseUserDefense => 139,
            Effect::ChanceRaiseUserAttack => 140,
            Effect::ChanceRaiseUserAllStats => 141,
            Effect::BellyDrum => 143,
            Effect::PsychUp => 144,
            Effect::MirrorCoat => 145,
            Effect::SkullBash => 146,
            Effect::Twister => 147,
            Effect::Earthquake => 148,
            Effect::HitTargetInTwoTurns => 149,
            Effect::Gust => 150,
            Effect::ChanceFlinchTargetDoubleMinimized => 151,
            Effect::Solarbeam => 152,
            Effect::Thunder => 153,
            Effect::Teleport => 154,
            Effect::BeatUp => 155,
            Effect::Fly => 156,
            Effect::DefenseCurl => 157,
            Effect::FakeOut => 159,
            Effect::Uproar => 160,
            Effect::Stockpile => 161,
            Effect::SpitUp => 162,
            Effect::Swallow => 163,
            Effect::Hail => 165,
            Effect::Torment => 166,
            Effect::Flatter => 167,
            Effect::WillOWisp => 168,
            Effect::Memento => 169,
            Effect::Facade => 170,
            Effect::FocusPunch => 171,
            Effect::Smellingsalt => 172,
            Effect::TargetUserThisTurn => 173,
            Effect::NaturePower => 174,
            Effect::Charge => 175,
            Effect::Taunt => 176,
            Effect::HelpingHand => 177,
            Effect::SwapItems => 178,
            Effect::RolePlay => 179,
            Effect::Wish => 180,
            Effect::Assist => 181,
            Effect::Ingrain => 182,
            Effect::Superpower => 183,
            Effect::MagicCoat => 184,
            Effect::Recycle => 185,
            Effect::DoubleDamageIfUserHit => 186,
            Effect::BrickBreak => 187,
            Effect::Yawn => 188,
            Effect::KnockOff => 189,
            Effect::Endeavor => 190,
            Effect::MoreDamageWhenMoreUserHP => 191,
            Effect::SkillSwap => 192,
            Effect::Imprison => 193,
            Effect::Refresh => 194,
            Effect::Grudge => 195,
            Effect::Snatch => 196,
            Effect::MoreDamageWhenTargetHeavier => 197,
            Effect::SecretPower => 198,
            Effect::ThirdRecoil => 199,
            Effect::TeeterDance => 200,
            Effect::BlazeKick => 201,
            Effect::MudSport => 202,
            Effect::PoisonFange => 203,
            Effect::WeatherBall => 204,
            Effect::LowerUserSpecialAttack2AfterDamage => 205,
            Effect::LowerTargetAttackDefense => 206,
            Effect::RaiseUserDefenseSpecialDefense => 207,
            Effect::SkyUppercut => 208,
            Effect::RaiseUserAttackDefense => 209,
            Effect::IncreasedCriticalChancePoisonTarget => 210,
            Effect::WaterSport => 211,
            Effect::RaiseUserSpecialAttackSpecialDefense => 212,
            Effect::RaiseUserAttackSpeed => 213,
            Effect::Camouflage => 214,
            Effect::Roost => 215,
            Effect::Gravity => 216,
            Effect::MiracleEye => 217,
            Effect::WakeUpSlap => 218,
            Effect::HammerArm => 219,
            Effect::GyroBall => 220,
            Effect::HealingWish => 221,
            Effect::Brine => 222,
            Effect::NaturalGift => 223,
            Effect::Feint => 224,
            Effect::DoubleIfTargetBerry => 225,
            Effect::Tailwind => 226,
            Effect::Accupressure => 227,
            Effect::MetalBurst => 228,
            Effect::UserSwitchOutAfterAttack => 229,
            Effect::CloseCombat => 230,
            Effect::Payback => 231,
            Effect::Assurance => 232,
            Effect::Embargo => 233,
            Effect::Fling => 234,
            Effect::PsychoShift => 235,
            Effect::TrumpCard => 236,
            Effect::HealBlock => 237,
            Effect::MoreDamageWhenMoreTargetHP => 238,
            Effect::PowerTrick => 239,
            Effect::GastroAcid => 240,
            Effect::LuckyChant => 241,
            Effect::MeFirst => 242,
            Effect::Copycat => 243,
            Effect::PowerSwap => 244,
            Effect::GuardSwap => 245,
            Effect::Punishment => 246,
            Effect::LastResort => 247,
            Effect::WorrySeed => 248,
            Effect::SuckerPunch => 249,
            Effect::ToxicSpokes => 250,
            Effect::HeartSwap => 251,
            Effect::AquaRing => 252,
            Effect::MagnetRise => 253,
            Effect::FlareBlitz => 254,
            Effect::Struggle => 255,
            Effect::Dive => 256,
            Effect::Dig => 257,
            Effect::Surf => 258,
            Effect::Defog => 259,
            Effect::TrickRoom => 260,
            Effect::Blizzard => 261,
            Effect::Whirlpool => 262,
            Effect::VoltTackle => 263,
            Effect::Bounce => 264,
            Effect::Captivate => 266,
            Effect::StealthRock => 267,
            Effect::Chatter => 268,
            Effect::PlateDriveType => 269,
            Effect::HeadSmash => 270,
            Effect::LunarDance => 271,
            Effect::SeedFlare => 272,
            Effect::ShadowForce => 273,
            Effect::FireFang => 274,
            Effect::IceFang => 275,
            Effect::ThunderFang => 276,
            Effect::ChanceRaiseUserSpecialAttack => 277,
            Effect::HoneClaws => 278,
            Effect::WideGuard => 279,
            Effect::GuardSplit => 280,
            Effect::PowerSplit => 281,
            Effect::WonderRoom => 282,
            Effect::UseTargetDefenseNotSpecial => 283,
            Effect::Venoshock => 284,
            Effect::Autotomize => 285,
            Effect::Telekinesis => 286,
            Effect::MagicRoom => 287,
            Effect::SmackDown => 288,
            Effect::AlwaysCritical => 289,
            Effect::FlameBurst => 290,
            Effect::QuiverDance => 291,
            Effect::MoreDamageWithUserTargetWeightRatio => 292,
            Effect::Synchronoise => 293,
            Effect::ElectroBall => 294,
            Effect::Soak => 295,
            Effect::FlameCharge => 296,
            Effect::AcidSpray => 297,
            Effect::FoulPlay => 298,
            Effect::SimpleBeam => 299,
            Effect::Entrainment => 300,
            Effect::AfterYou => 301,
            Effect::Round => 302,
            Effect::EchoedVoice => 303,
            Effect::IgnoresTargetStatModifiers => 304,
            Effect::ClearSmog => 305,
            Effect::StoredPower => 306,
            Effect::QuickGuard => 307,
            Effect::AllySwitch => 308,
            Effect::ShellSmash => 309,
            Effect::HealPulse => 310,
            Effect::Hex => 311,
            Effect::SkyDrop => 312,
            Effect::ShiftGear => 313,
            Effect::SwitchOutTargetAfterDamage => 314,
            Effect::Incinerate => 315,
            Effect::Quash => 316,
            Effect::Growth => 317,
            Effect::Acrobatics => 318,
            Effect::ReflectType => 319,
            Effect::Retaliate => 320,
            Effect::FinalGambit => 321,
            Effect::TailGlow => 322,
            Effect::Coil => 323,
            Effect::Bestow => 324,
            Effect::WaterPledge => 325,
            Effect::FirePledge => 326,
            Effect::GrassPledge => 327,
            Effect::WorkUp => 328,
            Effect::CottonGuard => 329,
            Effect::RelicSong => 330,
            Effect::Glaciate => 331,
            Effect::FreezeShock => 332,
            Effect::IceBurn => 333,
            Effect::VCreate => 335,
            Effect::FusionFlare => 336,
            Effect::FusionBolt => 337,
            Effect::Hurricane => 338,
        }
    }

    open spec fn spec_from_repr(code: i32) -> Option<Effect> {
        match code {
            1 => Some(Effect::RegularDamage),
            2 => Some(Effect::SleepTarget),
            3 => Some(Effect::ChancePoisonTarget),
            4 => Some(Effect::HealUserHalfInflicted),
            5 => Some(Effect::ChanceBurnTarget),
            6 => Some(Effect::ChanceFreezeTarget),
            7 => Some(Effect::ChanceParalyzeTarget),
            8 => Some(Effect::FaintUser),
            9 => Some(Effect::DreamEater),
            10 => Some(Effect::MirrorMove),
            11 => Some(Effect::RaiseUserAttack),
            12 => Some(Effect::RaiseUserDefense),
            14 => Some(Effect::RaiseUserSpecialAttack),
            17 => Some(Effect::RaiseUserEvasion),
            18 => Some(Effect::NeverMisses),
            19 => Some(Effect::LowerTargetAttack),
            20 => Some(Effect::LowerTargetDefense),
            21 => Some(Effect::LowerTargetSpeed),
            24 => Some(Effect::LowerTargetAccuracy),
            25 => Some(Effect::LowerTargetEvasion),
            26 => Some(Effect::Haze),
            27 => Some(Effect::Bide),
            28 => Some(Effect::Hit2To3TurnsThenConfuseUser),
            29 => Some(Effect::SwitchOutTarget),
            30 => Some(Effect::Hit2To5Times),
            31 => Some(Effect::Conversion),
            32 => Some(Effect::ChanceFlinchTarget),
            33 => Some(Effect::HealUserByHalfMaxHP),
            34 => Some(Effect::Toxic),
            35 => Some(Effect::PayDay),
            36 => Some(Effect::LightScreen),
            37 => Some(Effect::TriAttack),
            38 => Some(Effect::Rest),
            39 => Some(Effect::OneHitKO),
            40 => Some(Effect::RazorWind),
            41 => Some(Effect::SuperFang),
            42 => Some(Effect::DragonRage),
            43 => Some(Effect::SixteenthHP2To5Turns),
            44 => Some(Effect::IncreasedCritical),
            45 => Some(Effect::HitTwice),
            46 => Some(Effect::HalfRecoilIfMiss),
            47 => Some(Effect::Mist),
            48 => Some(Effect::FocusEnergy),
            49 => Some(Effect::QuarterRecoil),
            50 => Some(Effect::ConfuseTarget),
            51 => Some(Effect::RaiseUserAttack2),
            52 => Some(Effect::RaiseUserDefense2),
            53 => Some(Effect::RaiseUserSpeed2),
            54 => Some(Effect::RaiseUserSpecialAttack2),
            55 => Some(Effect::RaiseUserSpecialDefense2),
            58 => Some(Effect::Transform),
            59 => Some(Effect::LowerTargetAttack2),
            60 => Some(Effect::LowerTargetDefense2),
            61 => Some(Effect::LowerTargetSpeed2),
            63 => Some(Effect::LowerTargetSpecialDefense2),
            66 => Some(Effect::Reflect),
            67 => Some(Effect::PoisonTarget),
            68 => Some(Effect::ParalyzeTarget),
            69 => Some(Effect::ChanceLowerTargetAttack),
            70 => Some(Effect::ChanceLowerTargetDefense),
            71 => Some(Effect::ChanceLowerTargetSpeed),
            72 => Some(Effect::ChanceLowerTargetSpecialAttack),
            73 => Some(Effect::ChanceLowerTargetSpecialDefense),
            74 => Some(Effect::ChanceLowerTargetAccuracy),
            76 => Some(Effect::SkyAttack),
            77 => Some(Effect::ChanceConfuseTarget),
            78 => Some(Effect::Twineedle),
            79 => Some(Effect::VitalThrow),
            80 => Some(Effect::Substitute),
            81 => Some(Effect::RechargeNextTurn),
            82 => Some(Effect::Rage),
            83 => Some(Effect::Mimic),
            84 => Some(Effect::Metronome),
            85 => Some(Effect::LeechSeed),
            86 => Some(Effect::Splash),
            87 => Some(Effect::Disable),
            88 => Some(Effect::UserLevelDamage),
            89 => Some(Effect::Psywave),
            90 => Some(Effect::Counter),
            91 => Some(Effect::Encore),
            92 => Some(Effect::PainSplit),
            93 => Some(Effect::Snore),
            94 => Some(Effect::Conversion2),
            95 => Some(Effect::GuaranteeNextMoveHit),
            96 => Some(Effect::Sketch),
            98 => Some(Effect::SleepTalk),
            99 => Some(Effect::DestinyBond),
            100 => Some(Effect::MoreDamageWhenLessUserHP),
            101 => Some(Effect::Spite),
            102 => Some(Effect::FalseSwipe),
            103 => Some(Effect::CurePartyStatus),
            104 => Some(Effect::Fast),
            105 => Some(Effect::TripleKick),
            106 => Some(Effect::TakeTargetItem),
            107 => Some(Effect::PreventTargetLeaving),
            108 => Some(Effect::Nightmare),
            109 => Some(Effect::Minimize),
            110 => Some(Effect::Curse),
            112 => Some(Effect::PreventHitUser),
            113 => Some(Effect::Spikes),
            114 => Some(Effect::ResetTargetEvadeDisableGhostImmunity),
            115 => Some(Effect::PerishSong),
            116 => Some(Effect::Sandstorm),
            117 => Some(Effect::Endure),
            118 => Some(Effect::DoubleEachSuccessiveUseMod5Turns),
            119 => Some(Effect::Swagger),
            120 => Some(Effect::FuryCutter),
            121 => Some(Effect::Attract),
            122 => Some(Effect::Return),
            123 => Some(Effect::Present),
            124 => Some(Effect::Frustration),
            125 => Some(Effect::Safeguard),
            126 => Some(Effect::ChanceBurnTargetThawUser),
            127 => Some(Effect::Magnitude),
            128 => Some(Effect::BatonPass),
            129 => Some(Effect::Pursuit),
            130 => Some(Effect::RapidSpin),
            131 => Some(Effect::Sonicboom),
            133 => Some(Effect::HealUserByHalfMaxHPWeather),
            136 => Some(Effect::HiddenPower),
            137 => Some(Effect::RainDance),
            138 => Some(Effect::SunnyDay),
            139 => Some(Effect::ChanceRaiseUserDefense),
            140 => Some(Effect::ChanceRaiseUserAttack),
            141 => Some(Effect::ChanceRaiseUserAllStats),
            143 => Some(Effect::BellyDrum),
            144 => Some(Effect::PsychUp),
            145 => Some(Effect::MirrorCoat),
            146 => Some(Effect::SkullBash),
            147 => Some(Effect::Twister),
            148 => Some(Effect::Earthquake),
            149 => Some(Effect::HitTargetInTwoTurns),
            150 => Some(Effect::Gust),
            151 => Some(Effect::ChanceFlinchTargetDoubleMinimized),
            152 => Some(Effect::Solarbeam),
            153 => Some(Effect::Thunder),
            154 => Some(Effect::Teleport),
            155 => Some(Effect::BeatUp),
            156 => Some(Effect::Fly),
            157 => Some(Effect::DefenseCurl),
            159 => Some(Effect::FakeOut),
            160 => Some(Effect::Uproar),
            161 => Some(Effect::Stockpile),
            162 => Some(Effect::SpitUp),
            163 => Some(Effect::Swallow),
            165 => Some(Effect::Hail),
            166 => Some(Effect::Torment),
            167 => Some(Effect::Flatter),
            168 => Some(Effect::WillOWisp),
            169 => Some(Effect::Memento),
            170 => Some(Effect::Facade),
            171 => Some(Effect::FocusPunch),
            172 => Some(Effect::Smellingsalt),
            173 => Some(Effect::TargetUserThisTurn),
            174 => Some(Effect::NaturePower),
            175 => Some(Effect::Charge),
            176 => Some(Effect::Taunt),
            177 => Some(Effect::HelpingHand),
            178 => Some(Effect::SwapItems),
            179 => Some(Effect::RolePlay),
            180 => Some(Effect::Wish),
            181 => Some(Effect::Assist),
            182 => Some(Effect::Ingrain),
            183 => Some(Effect::Superpower),
            184 => Some(Effect::MagicCoat),
            185 => Some(Effect::Recycle),
            186 => Some(Effect::DoubleDamageIfUserHit),
            187 => Some(Effect::BrickBreak),
            188 => Some(Effect::Yawn),
            189 => Some(Effect::KnockOff),
            190 => Some(Effect::Endeavor),
            191 => Some(Effect::MoreDamageWhenMoreUserHP),
            192 => Some(Effect::SkillSwap),
            193 => Some(Effect::Imprison),
            194 => Some(Effect::Refresh),
            195 => Some(Effect::Grudge),
            196 => Some(Effect::Snatch),
            197 => Some(Effect::MoreDamageWhenTargetHeavier),
            198 => Some(Effect::SecretPower),
            199 => Some(Effect::ThirdRecoil),
            200 => Some(Effect::TeeterDance),
            201 => Some(Effect::BlazeKick),
            202 => Some(Effect::MudSport),
            203 => Some(Effect::PoisonFange),
            204 => Some(Effect::WeatherBall),
            205 => Some(Effect::LowerUserSpecialAttack2AfterDamage),
            206 => Some(Effect::LowerTargetAttackDefense),
            207 => Some(Effect::RaiseUserDefenseSpecialDefense),
            208 => Some(Effect::SkyUppercut),
            209 => Some(Effect::RaiseUserAttackDefense),
            210 => Some(Effect::IncreasedCriticalChancePoisonTarget),
            211 => Some(Effect::WaterSport),
            212 => Some(Effect::RaiseUserSpecialAttackSpecialDefense),
            213 => Some(Effect::RaiseUserAttackSpeed),
            214 => Some(Effect::Camouflage),
            215 => Some(Effect::Roost),
            216 => Some(Effect::Gravity),
            217 => Some(Effect::MiracleEye),
            218 => Some(Effect::WakeUpSlap),
            219 => Some(Effect::HammerArm),
            220 => Some(Effect::GyroBall),
            221 => Some(Effect::HealingWish),
            222 => Some(Effect::Brine),
            223 => Some(Effect::NaturalGift),
            224 => Some(Effect::Feint),
            225 => Some(Effect::DoubleIfTargetBerry),
            226 => Some(Effect::Tailwind),
            227 => Some(Effect::Accupressure),
            228 => Some(Effect::MetalBurst),
            229 => Some(Effect::UserSwitchOutAfterAttack),
            230 => Some(Effect::CloseCombat),
            231 => Some(Effect::Payback),
            232 => Some(Effect::Assurance),
            233 => Some(Effect::Embargo),
            234 => Some(Effect::Fling),
            235 => Some(Effect::PsychoShift),
            236 => Some(Effect::TrumpCard),
            237 => Some(Effect::HealBlock),
            238 => Some(Effect::MoreDamageWhenMoreTargetHP),
            239 => Some(Effect::PowerTrick),
            240 => Some(Effect::GastroAcid),
            241 => Some(Effect::LuckyChant),
            242 => Some(Effect::MeFirst),
            243 => Some(Effect::Copycat),
            244 => Some(Effect::PowerSwap),
            245 => Some(Effect::GuardSwap),
            246 => Some(Effect::Punishment),
            247 => Some(Effect::LastResort),
            248 => Some(Effect::WorrySeed),
            249 => Some(Effect::SuckerPunch),
            250 => Some(Effect::ToxicSpokes),
            251 => Some(Effect::HeartSwap),
            252 => Some(Effect::AquaRing),
            253 => Some(Effect::MagnetRise),
            254 => Some(Effect::FlareBlitz),
            255 => Some(Effect::Struggle),
            256 => Some(Effect::Dive),
            257 => Some(Effect::Dig),
            258 => Some(Effect::Surf),
            259 => Some(Effect::Defog),
            260 => Some(Effect::TrickRoom),
            261 => Some(Effect::Blizzard),
            262 => Some(Effect::Whirlpool),
            263 => Some(Effect::VoltTackle),
            264 => Some(Effect::Bounce),
            266 => Some(Effect::Captivate),
            267 => Some(Effect::StealthRock),
            268 => Some(Effect::Chatter),
            269 => Some(Effect::PlateDriveType),
            270 => Some(Effect::HeadSmash),
            271 => Some(Effect::LunarDance),
            272 => Some(Effect::SeedFlare),
            273 => Some(Effect::ShadowForce),
            274 => Some(Effect::FireFang),
            275 => Some(Effect::IceFang),
            276 => Some(Effect::ThunderFang),
            277 => Some(Effect::ChanceRaiseUserSpecialAttack),
            278 => Some(Effect::HoneClaws),
            279 => Some(Effect::WideGuard),
            280 => Some(Effect::GuardSplit),
            281 => Some(Effect::PowerSplit),
            282 => Some(Effect::WonderRoom),
            283 => Some(Effect::UseTargetDefenseNotSpecial),
            284 => Some(Effect::Venoshock),
            285 => Some(Effect::Autotomize),
            286 => Some(Effect::Telekinesis),
            287 => Some(Effect::MagicRoom),
            288 => Some(Effect::SmackDown),
            289 => Some(Effect::AlwaysCritical),
            290 => Some(Effect::FlameBurst),
            291 => Some(Effect::QuiverDance),
            292 => Some(Effect::MoreDamageWithUserTargetWeightRatio),
            293 => Some(Effect::Synchronoise),
            294 => Some(Effect::ElectroBall),
            295 => Some(Effect::Soak),
            296 => Some(Effect::FlameCharge),
            297 => Some(Effect::AcidSpray),
            298 => Some(Effect::FoulPlay),
            299 => Some(Effect::SimpleBeam),
            300 => Some(Effect::Entrainment),
            301 => Some(Effect::AfterYou),
            302 => Some(Effect::Round),
            303 => Some(Effect::EchoedVoice),
            304 => Some(Effect::IgnoresTargetStatModifiers),
            305 => Some(Effect::ClearSmog),
            306 => Some(Effect::StoredPower),
            307 => Some(Effect::QuickGuard),
            308 => Some(Effect::AllySwitch),
            309 => Some(Effect::ShellSmash),
            310 => Some(Effect::HealPulse),
            311 => Some(Effect::Hex),
            312 => Some(Effect::SkyDrop),
            313 => Some(Effect::ShiftGear),
            314 => Some(Effect::SwitchOutTargetAfterDamage),
            315 => Some(Effect::Incinerate),
            316 => Some(Effect::Quash),
            317 => Some(Effect::Growth),
            318 => Some(Effect::Acrobatics),
            319 => Some(Effect::ReflectType),
            320 => Some(Effect::Retaliate),
            321 => Some(Effect::FinalGambit),
            322 => Some(Effect::TailGlow),
            323 => Some(Effect::Coil),
            324 => Some(Effect::Bestow),
            325 => Some(Effect::WaterPledge),
            326 => Some(Effect::FirePledge),
            327 => Some(Effect::GrassPledge),
            328 => Some(Effect::WorkUp),
            329 => Some(Effect::CottonGuard),
            330 => Some(Effect::RelicSong),
            331 => Some(Effect::Glaciate),
            332 => Some(Effect::FreezeShock),
            333 => Some(Effect::IceBurn),
            335 => Some(Effect::VCreate),
            336 => Some(Effect::FusionFlare),
            337 => Some(Effect::FusionBolt),
            338 => Some(Effect::Hurricane),
            _ => None,
        }
    }

    open spec fn spec_count() -> int {
        317
    }

    fn repr(self) -> (c: i32) {
        match self {
            Effect::RegularDamage => 1,
            Effect::SleepTarget => 2,
            Effect::ChancePoisonTarget => 3,
            Effect::HealUserHalfInflicted => 4,
            Effect::ChanceBurnTarget => 5,
            Effect::ChanceFreezeTarget => 6,
            Effect::ChanceParalyzeTarget => 7,
            Effect::FaintUser => 8,
            Effect::DreamEater => 9,
            Effect::MirrorMove => 10,
            Effect::RaiseUserAttack => 11,
            Effect::RaiseUserDefense => 12,
            Effect::RaiseUserSpecialAttack => 14,
            Effect::RaiseUserEvasion => 17,
            Effect::NeverMisses => 18,
            Effect::LowerTargetAttack => 19,
            Effect::LowerTargetDefense => 20,
            Effect::LowerTargetSpeed => 21,
            Effect::LowerTargetAccuracy => 24,
            Effect::LowerTargetEvasion => 25,
            Effect::Haze => 26,
            Effect::Bide => 27,
            Effect::Hit2To3TurnsThenConfuseUser => 28,
            Effect::SwitchOutTarget => 29,
            Effect::Hit2To5Times => 30,
            Effect::Conversion => 31,
            Effect::ChanceFlinchTarget => 32,
            Effect::HealUserByHalfMaxHP => 33,
            Effect::Toxic => 34,
            Effect::PayDay => 35,
            Effect::LightScreen => 36,
            Effect::TriAttack => 37,
            Effect::Rest => 38,
            Effect::OneHitKO => 39,
            Effect::RazorWind => 40,
            Effect::SuperFang => 41,
            Effect::DragonRage => 42,
            Effect::SixteenthHP2To5Turns => 43,
            Effect::IncreasedCritical => 44,
            Effect::HitTwice => 45,
            Effect::HalfRecoilIfMiss => 46,
            Effect::Mist => 47,
            Effect::FocusEnergy => 48,
            Effect::QuarterRecoil => 49,
            Effect::ConfuseTarget => 50,
            Effect::RaiseUserAttack2 => 51,
            Effect::RaiseUserDefense2 => 52,
            Effect::RaiseUserSpeed2 => 53,
            Effect::RaiseUserSpecialAttack2 => 54,
            Effect::RaiseUserSpecialDefense2 => 55,
            Effect::Transform => 58,
            Effect::LowerTargetAttack2 => 59,
            Effect::LowerTargetDefense2 => 60,
            Effect::LowerTargetSpeed2 => 61,
            Effect::LowerTargetSpecialDefense2 => 63,
            Effect::Reflect => 66,
            Effect::PoisonTarget => 67,
            Effect::ParalyzeTarget => 68,
            Effect::ChanceLowerTargetAttack => 69,
            Effect::ChanceLowerTargetDefense => 70,
            Effect::ChanceLowerTargetSpeed => 71,
            Effect::ChanceLowerTargetSpecialAttack => 72,
            Effect::ChanceLowerTargetSpecialDefense => 73,
            Effect::ChanceLowerTargetAccuracy => 74,
            Effect::SkyAttack => 76,
            Effect::ChanceConfuseTarget => 77,
            Effect::Twineedle => 78,
            Effect::VitalThrow => 79,
            Effect::Substitute => 80,
            Effect::RechargeNextTurn => 81,
            Effect::Rage => 82,
            Effect::Mimic => 83,
            Effect::Metronome => 84,
            Effect::LeechSeed => 85,
            Effect::Splash => 86,
            Effect::Disable => 87,
            Effect::UserLevelDamage => 88,
            Effect::Psywave => 89,
            Effect::Counter => 90,
            Effect::Encore => 91,
            Effect::PainSplit => 92,
            Effect::Snore => 93,
            Effect::Conversion2 => 94,
            Effect::GuaranteeNextMoveHit => 95,
            Effect::Sketch => 96,
            Effect::SleepTalk => 98,
            Effect::DestinyBond => 99,
            Effect::MoreDamageWhenLessUserHP => 100,
            Effect::Spite => 101,
            Effect::FalseSwipe => 102,
            Effect::CurePartyStatus => 103,
            Effect::Fast => 104,
            Effect::TripleKick => 105,
            Effect::TakeTargetItem => 106,
            Effect::PreventTargetLeaving => 107,
            Effect::Nightmare => 108,
            Effect::Minimize => 109,
            Effect::Curse => 110,
            Effect::PreventHitUser => 112,
            Effect::Spikes => 113,
            Effect::ResetTargetEvadeDisableGhostImmunity => 114,
            Effect::PerishSong => 115,
            Effect::Sandstorm => 116,
            Effect::Endure => 117,
            Effect::DoubleEachSuccessiveUseMod5Turns => 118,
            Effect::Swagger => 119,
            Effect::FuryCutter => 120,
            Effect::Attract => 121,
            Effect::Return => 122,
            Effect::Present => 123,
            Effect::Frustration => 124,
            Effect::Safeguard => 125,
            Effect::ChanceBurnTargetThawUser => 126,
            Effect::Magnitude => 127,
            Effect::BatonPass => 128,
            Effect::Pursuit => 129,
            Effect::RapidSpin => 130,
            Effect::Sonicboom => 131,
            Effect::HealUserByHalfMaxHPWeather => 133,
            Effect::HiddenPower => 136,
            Effect::RainDance => 137,
            Effect::SunnyDay => 138,
            Effect::ChanceRaiseUserDefense => 139,
            Effect::ChanceRaiseUserAttack => 140,
            Effect::ChanceRaiseUserAllStats => 141,
            Effect::BellyDrum => 143,
            Effect::PsychUp => 144,
            Effect::MirrorCoat => 145,
            Effect::SkullBash => 146,
            Effect::Twister => 147,
            Effect::Earthquake => 148,
            Effect::HitTargetInTwoTurns => 149,
            Effect::Gust => 150,
            Effect::ChanceFlinchTargetDoubleMinimized => 151,
            Effect::Solarbeam => 152,
            Effect::Thunder => 153,
            Effect::Teleport => 154,
            Effect::BeatUp => 155,
            Effect::Fly => 156,
            Effect::DefenseCurl => 157,
            Effect::FakeOut => 159,
            Effect::Uproar => 160,
            Effect::Stockpile => 161,
            Effect::SpitUp => 162,
            Effect::Swallow => 163,
            Effect::Hail => 165,
            Effect::Torment => 166,
            Effect::Flatter => 167,
            Effect::WillOWisp => 168,
            Effect::Memento => 169,
            Effect::Facade => 170,
            Effect::FocusPunch => 171,
            Effect::Smellingsalt => 172,
            Effect::TargetUserThisTurn => 173,
            Effect::NaturePower => 174,
            Effect::Charge => 175,
            Effect::Taunt => 176,
            Effect::HelpingHand => 177,
            Effect::SwapItems => 178,
            Effect::RolePlay => 179,
            Effect::Wish => 180,
            Effect::Assist => 181,
            Effect::Ingrain => 182,
            Effect::Superpower => 183,
            Effect::MagicCoat => 184,
            Effect::Recycle => 185,
            Effect::DoubleDamageIfUserHit => 186,
            Effect::BrickBreak => 187,
            Effect::Yawn => 188,
            Effect::KnockOff => 189,
            Effect::Endeavor => 190,
            Effect::MoreDamageWhenMoreUserHP => 191,
            Effect::SkillSwap => 192,
            Effect::Imprison => 193,
            Effect::Refresh => 194,
            Effect::Grudge => 195,
            Effect::Snatch => 196,
            Effect::MoreDamageWhenTargetHeavier => 197,
            Effect::SecretPower => 198,
            Effect::ThirdRecoil => 199,
            Effect::TeeterDance => 200,
            Effect::BlazeKick => 201,
            Effect::MudSport => 202,
            Effect::PoisonFange => 203,
            Effect::WeatherBall => 204,
            Effect::LowerUserSpecialAttack2AfterDamage => 205,
            Effect::LowerTargetAttackDefense => 206,
            Effect::RaiseUserDefenseSpecialDefense => 207,
            Effect::SkyUppercut => 208,
            Effect::RaiseUserAttackDefense => 209,
            Effect::IncreasedCriticalChancePoisonTarget => 210,
            Effect::WaterSport => 211,
            Effect::RaiseUserSpecialAttackSpecialDefense => 212,
            Effect::RaiseUserAttackSpeed => 213,
            Effect::Camouflage => 214,
            Effect::Roost => 215,
            Effect::Gravity => 216,
            Effect::MiracleEye => 217,
            Effect::WakeUpSlap => 218,
            Effect::HammerArm => 219,
            Effect::GyroBall => 220,
            Effect::HealingWish => 221,
            Effect::Brine => 222,
            Effect::NaturalGift => 223,
            Effect::Feint => 224,
            Effect::DoubleIfTargetBerry => 225,
            Effect::Tailwind => 226,
            Effect::Accupressure => 227,
            Effect::MetalBurst => 228,
            Effect::UserSwitchOutAfterAttack => 229,
            Effect::CloseCombat => 230,
            Effect::Payback => 231,
            Effect::Assurance => 232,
            Effect::Embargo => 233,
            Effect::Fling => 234,
            Effect::PsychoShift => 235,
            Effect::TrumpCard => 236,
            Effect::HealBlock => 237,
            Effect::MoreDamageWhenMoreTargetHP => 238,
            Effect::PowerTrick => 239,
            Effect::GastroAcid => 240,
            Effect::LuckyChant => 241,
            Effect::MeFirst => 242,
            Effect::Copycat => 243,
            Effect::PowerSwap => 244,
            Effect::GuardSwap => 245,
            Effect::Punishment => 246,
            Effect::LastResort => 247,
            Effect::WorrySeed => 248,
            Effect::SuckerPunch => 249,
            Effect::ToxicSpokes => 250,
            Effect::HeartSwap => 251,
            Effect::AquaRing => 252,
            Effect::MagnetRise => 253,
            Effect::FlareBlitz => 254,
            Effect::Struggle => 255,
            Effect::Dive => 256,
            Effect::Dig => 257,
            Effect::Surf => 258,
            Effect::Defog => 259,
            Effect::TrickRoom => 260,
            Effect::Blizzard => 261,
            Effect::Whirlpool => 262,
            Effect::VoltTackle => 263,
            Effect::Bounce => 264,
            Effect::Captivate => 266,
            Effect::StealthRock => 267,
            Effect::Chatter => 268,
            Effect::PlateDriveType => 269,
            Effect::HeadSmash => 270,
            Effect::LunarDance => 271,
            Effect::SeedFlare => 272,
            Effect::ShadowForce => 273,
            Effect::FireFang => 274,
            Effect::IceFang => 275,
            Effect::ThunderFang => 276,
            Effect::ChanceRaiseUserSpecialAttack => 277,
            Effect::HoneClaws => 278,
            Effect::WideGuard => 279,
            Effect::GuardSplit => 280,
            Effect::PowerSplit => 281,
            Effect::WonderRoom => 282,
            Effect::UseTargetDefenseNotSpecial => 283,
            Effect::Venoshock => 284,
            Effect::Autotomize => 285,
            Effect::Telekinesis => 286,
            Effect::MagicRoom => 287,
            Effect::SmackDown => 288,
            Effect::AlwaysCritical => 289,
            Effect::FlameBurst => 290,
            Effect::QuiverDance => 291,
            Effect::MoreDamageWithUserTargetWeightRatio => 292,
            Effect::Synchronoise => 293,
            Effect::ElectroBall => 294,
            Effect::Soak => 295,
            Effect::FlameCharge => 296,
            Effect::AcidSpray => 297,
            Effect::FoulPlay => 298,
            Effect::SimpleBeam => 299,
            Effect::Entrainment => 300,
            Effect::AfterYou => 301,
            Effect::Round => 302,
            Effect::EchoedVoice => 303,
            Effect::IgnoresTargetStatModifiers => 304,
            Effect::ClearSmog => 305,
            Effect::StoredPower => 306,
            Effect::QuickGuard => 307,
            Effect::AllySwitch => 308,
            Effect::ShellSmash => 309,
            Effect::HealPulse => 310,
            Effect::Hex => 311,
            Effect::SkyDrop => 312,
            Effect::ShiftGear => 313,
            Effect::SwitchOutTargetAfterDamage => 314,
            Effect::Incinerate => 315,
            Effect::Quash => 316,
            Effect::Growth => 317,
            Effect::Acrobatics => 318,
            Effect::ReflectType => 319,
            Effect::Retaliate => 320,
            Effect::FinalGambit => 321,
            Effect::TailGlow => 322,
            Effect::Coil => 323,
            Effect::Bestow => 324,
            Effect::WaterPledge => 325,
            Effect::FirePledge => 326,
            Effect::GrassPledge => 327,
            Effect::WorkUp => 328,
            Effect::CottonGuard => 329,
            Effect::RelicSong => 330,
            Effect::Glaciate => 331,
            Effect::FreezeShock => 332,
            Effect::IceBurn => 333,
            Effect::VCreate => 335,
            Effect::FusionFlare => 336,
            Effect::FusionBolt => 337,
            Effect::Hurricane => 338,
        }
    }

    fn from_repr(code: i32) -> (r: Option<Effect>) {
        match code {
            1 => Some(Effect::RegularDamage),
            2 => Some(Effect::SleepTarget),
            3 => Some(Effect::ChancePoisonTarget),
            4 => Some(Effect::HealUserHalfInflicted),
            5 => Some(Effect::ChanceBurnTarget),
            6 => Some(Effect::ChanceFreezeTarget),
            7 => Some(Effect::ChanceParalyzeTarget),
            8 => Some(Effect::FaintUser),
            9 => Some(Effect::DreamEater),
            10 => Some(Effect::MirrorMove),
            11 => Some(Effect::RaiseUserAttack),
            12 => Some(Effect::RaiseUserDefense),
            14 => Some(Effect::RaiseUserSpecialAttack),
            17 => Some(Effect::RaiseUserEvasion),
            18 => Some(Effect::NeverMisses),
            19 => Some(Effect::LowerTargetAttack),
            20 => Some(Effect::LowerTargetDefense),
            21 => Some(Effect::LowerTargetSpeed),
            24 => Some(Effect::LowerTargetAccuracy),
            25 => Some(Effect::LowerTargetEvasion),
            26 => Some(Effect::Haze),
            27 => Some(Effect::Bide),
            28 => Some(Effect::Hit2To3TurnsThenConfuseUser),
            29 => Some(Effect::SwitchOutTarget),
            30 => Some(Effect::Hit2To5Times),
            31 => Some(Effect::Conversion),
            32 => Some(Effect::ChanceFlinchTarget),
            33 => Some(Effect::HealUserByHalfMaxHP),
            34 => Some(Effect::Toxic),
            35 => Some(Effect::PayDay),
            36 => Some(Effect::LightScreen),
            37 => Some(Effect::TriAttack),
            38 => Some(Effect::Rest),
            39 => Some(Effect::OneHitKO),
            40 => Some(Effect::RazorWind),
            41 => Some(Effect::SuperFang),
            42 => Some(Effect::DragonRage),
            43 => Some(Effect::SixteenthHP2To5Turns),
            44 => Some(Effect::IncreasedCritical),
            45 => Some(Effect::HitTwice),
            46 => Some(Effect::HalfRecoilIfMiss),
            47 => Some(Effect::Mist),
            48 => Some(Effect::FocusEnergy),
            49 => Some(Effect::QuarterRecoil),
            50 => Some(Effect::ConfuseTarget),
            51 => Some(Effect::RaiseUserAttack2),
            52 => Some(Effect::RaiseUserDefense2),
            53 => Some(Effect::RaiseUserSpeed2),
            54 => Some(Effect::RaiseUserSpecialAttack2),
            55 => Some(Effect::RaiseUserSpecialDefense2),
            58 => Some(Effect::Transform),
            59 => Some(Effect::LowerTargetAttack2),
            60 => Some(Effect::LowerTargetDefense2),
            61 => Some(Effect::LowerTargetSpeed2),
            63 => Some(Effect::LowerTargetSpecialDefense2),
            66 => Some(Effect::Reflect),
            67 => Some(Effect::PoisonTarget),
            68 => Some(Effect::ParalyzeTarget),
            69 => Some(Effect::ChanceLowerTargetAttack),
            70 => Some(Effect::ChanceLowerTargetDefense),
            71 => Some(Effect::ChanceLowerTargetSpeed),
            72 => Some(Effect::ChanceLowerTargetSpecialAttack),
            73 => Some(Effect::ChanceLowerTargetSpecialDefense),
            74 => Some(Effect::ChanceLowerTargetAccuracy),
            76 => Some(Effect::SkyAttack),
            77 => Some(Effect::ChanceConfuseTarget),
            78 => Some(Effect::Twineedle),
            79 => Some(Effect::VitalThrow),
            80 => Some(Effect::Substitute),
            81 => Some(Effect::RechargeNextTurn),
            82 => Some(Effect::Rage),
            83 => Some(Effect::Mimic),
            84 => Some(Effect::Metronome),
            85 => Some(Effect::LeechSeed),
            86 => Some(Effect::Splash),
            87 => Some(Effect::Disable),
            88 => Some(Effect::UserLevelDamage),
            89 => Some(Effect::Psywave),
            90 => Some(Effect::Counter),
            91 => Some(Effect::Encore),
            92 => Some(Effect::PainSplit),
            93 => Some(Effect::Snore),
            94 => Some(Effect::Conversion2),
            95 => Some(Effect::GuaranteeNextMoveHit),
            96 => Some(Effect::Sketch),
            98 => Some(Effect::SleepTalk),
            99 => Some(Effect::DestinyBond),
            100 => Some(Effect::MoreDamageWhenLessUserHP),
            101 => Some(Effect::Spite),
            102 => Some(Effect::FalseSwipe),
            103 => Some(Effect::CurePartyStatus),
            104 => Some(Effect::Fast),
            105 => Some(Effect::TripleKick),
            106 => Some(Effect::TakeTargetItem),
            107 => Some(Effect::PreventTargetLeaving),
            108 => Some(Effect::Nightmare),
            109 => Some(Effect::Minimize),
            110 => Some(Effect::Curse),
            112 => Some(Effect::PreventHitUser),
            113 => Some(Effect::Spikes),
            114 => Some(Effect::ResetTargetEvadeDisableGhostImmunity),
            115 => Some(Effect::PerishSong),
            116 => Some(Effect::Sandstorm),
            117 => Some(Effect::Endure),
            118 => Some(Effect::DoubleEachSuccessiveUseMod5Turns),
            119 => Some(Effect::Swagger),
            120 => Some(Effect::FuryCutter),
            121 => Some(Effect::Attract),
            122 => Some(Effect::Return),
            123 => Some(Effect::Present),
            124 => Some(Effect::Frustration),
            125 => Some(Effect::Safeguard),
            126 => Some(Effect::ChanceBurnTargetThawUser),
            127 => Some(Effect::Magnitude),
            128 => Some(Effect::BatonPass),
            129 => Some(Effect::Pursuit),
            130 => Some(Effect::RapidSpin),
            131 => Some(Effect::Sonicboom),
            133 => Some(Effect::HealUserByHalfMaxHPWeather),
            136 => Some(Effect::HiddenPower),
            137 => Some(Effect::RainDance),
            138 => Some(Effect::SunnyDay),
            139 => Some(Effect::ChanceRaiseUserDefense),
            140 => Some(Effect::ChanceRaiseUserAttack),
            141 => Some(Effect::ChanceRaiseUserAllStats),
            143 => Some(Effect::BellyDrum),
            144 => Some(Effect::PsychUp),
            145 => Some(Effect::MirrorCoat),
            146 => Some(Effect::SkullBash),
            147 => Some(Effect::Twister),
            148 => Some(Effect::Earthquake),
            149 => Some(Effect::HitTargetInTwoTurns),
            150 => Some(Effect::Gust),
            151 => Some(Effect::ChanceFlinchTargetDoubleMinimized),
            152 => Some(Effect::Solarbeam),
            153 => Some(Effect::Thunder),
            154 => Some(Effect::Teleport),
            155 => Some(Effect::BeatUp),
            156 => Some(Effect::Fly),
            157 => Some(Effect::DefenseCurl),
            159 => Some(Effect::FakeOut),
            160 => Some(Effect::Uproar),
            161 => Some(Effect::Stockpile),
            162 => Some(Effect::SpitUp),
            163 => Some(Effect::Swallow),
            165 => Some(Effect::Hail),
            166 => Some(Effect::Torment),
            167 => Some(Effect::Flatter),
            168 => Some(Effect::WillOWisp),
            169 => Some(Effect::Memento),
            170 => Some(Effect::Facade),
            171 => Some(Effect::FocusPunch),
            172 => Some(Effect::Smellingsalt),
            173 => Some(Effect::TargetUserThisTurn),
            174 => Some(Effect::NaturePower),
            175 => Some(Effect::Charge),
            176 => Some(Effect::Taunt),
            177 => Some(Effect::HelpingHand),
            178 => Some(Effect::SwapItems),
            179 => Some(Effect::RolePlay),
            180 => Some(Effect::Wish),
            181 => Some(Effect::Assist),
            182 => Some(Effect::Ingrain),
            183 => Some(Effect::Superpower),
            184 => Some(Effect::MagicCoat),
            185 => Some(Effect::Recycle),
            186 => Some(Effect::DoubleDamageIfUserHit),
            187 => Some(Effect::BrickBreak),
            188 => Some(Effect::Yawn),
            189 => Some(Effect::KnockOff),
            190 => Some(Effect::Endeavor),
            191 => Some(Effect::MoreDamageWhenMoreUserHP),
            192 => Some(Effect::SkillSwap),
            193 => Some(Effect::Imprison),
            194 => Some(Effect::Refresh),
            195 => Some(Effect::Grudge),
            196 => Some(Effect::Snatch),
            197 => Some(Effect::MoreDamageWhenTargetHeavier),
            198 => Some(Effect::SecretPower),
            199 => Some(Effect::ThirdRecoil),
            200 => Some(Effect::TeeterDance),
            201 => Some(Effect::BlazeKick),
            202 => Some(Effect::MudSport),
            203 => Some(Effect::PoisonFange),
            204 => Some(Effect::WeatherBall),
            205 => Some(Effect::LowerUserSpecialAttack2AfterDamage),
            206 => Some(Effect::LowerTargetAttackDefense),
            207 => Some(Effect::RaiseUserDefenseSpecialDefense),
            208 => Some(Effect::SkyUppercut),
            209 => Some(Effect::RaiseUserAttackDefense),
            210 => Some(Effect::IncreasedCriticalChancePoisonTarget),
            211 => Some(Effect::WaterSport),
            212 => Some(Effect::RaiseUserSpecialAttackSpecialDefense),
            213 => Some(Effect::RaiseUserAttackSpeed),
            214 => Some(Effect::Camouflage),
            215 => Some(Effect::Roost),
            216 => Some(Effect::Gravity),
            217 => Some(Effect::MiracleEye),
            218 => Some(Effect::WakeUpSlap),
            219 => Some(Effect::HammerArm),
            220 => Some(Effect::GyroBall),
            221 => Some(Effect::HealingWish),
            222 => Some(Effect::Brine),
            223 => Some(Effect::NaturalGift),
            224 => Some(Effect::Feint),
            225 => Some(Effect::DoubleIfTargetBerry),
            226 => Some(Effect::Tailwind),
            227 => Some(Effect::Accupressure),
            228 => Some(Effect::MetalBurst),
            229 => Some(Effect::UserSwitchOutAfterAttack),
            230 => Some(Effect::CloseCombat),
            231 => Some(Effect::Payback),
            232 => Some(Effect::Assurance),
            233 => Some(Effect::Embargo),
            234 => Some(Effect::Fling),
            235 => Some(Effect::PsychoShift),
            236 => Some(Effect::TrumpCard),
            237 => Some(Effect::HealBlock),
            238 => Some(Effect::MoreDamageWhenMoreTargetHP),
            239 => Some(Effect::PowerTrick),
            240 => Some(Effect::GastroAcid),
            241 => Some(Effect::LuckyChant),
            242 => Some(Effect::MeFirst),
            243 => Some(Effect::Copycat),
            244 => Some(Effect::PowerSwap),
            245 => Some(Effect::GuardSwap),
            246 => Some(Effect::Punishment),
            247 => Some(Effect::LastResort),
            248 => Some(Effect::WorrySeed),
            249 => Some(Effect::SuckerPunch),
            250 => Some(Effect::ToxicSpokes),
            251 => Some(Effect::HeartSwap),
            252 => Some(Effect::AquaRing),
            253 => Some(Effect::MagnetRise),
            254 => Some(Effect::FlareBlitz),
            255 => Some(Effect::Struggle),
            256 => Some(Effect::Dive),
            257 => Some(Effect::Dig),
            258 => Some(Effect::Surf),
            259 => Some(Effect::Defog),
            260 => Some(Effect::TrickRoom),
            261 => Some(Effect::Blizzard),
            262 => Some(Effect::Whirlpool),
            263 => Some(Effect::VoltTackle),
            264 => Some(Effect::Bounce),
            266 => Some(Effect::Captivate),
            267 => Some(Effect::StealthRock),
            268 => Some(Effect::Chatter),
            269 => Some(Effect::PlateDriveType),
            270 => Some(Effect::HeadSmash),
            271 => Some(Effect::LunarDance),
            272 => Some(Effect::SeedFlare),
            273 => Some(Effect::ShadowForce),
            274 => Some(Effect::FireFang),
            275 => Some(Effect::IceFang),
            276 => Some(Effect::ThunderFang),
            277 => Some(Effect::ChanceRaiseUserSpecialAttack),
            278 => Some(Effect::HoneClaws),
            279 => Some(Effect::WideGuard),
            280 => Some(Effect::GuardSplit),
            281 => Some(Effect::PowerSplit),
            282 => Some(Effect::WonderRoom),
            283 => Some(Effect::UseTargetDefenseNotSpecial),
            284 => Some(Effect::Venoshock),
            285 => Some(Effect::Autotomize),
            286 => Some(Effect::Telekinesis),
            287 => Some(Effect::MagicRoom),
            288 => Some(Effect::SmackDown),
            289 => Some(Effect::AlwaysCritical),
            290 => Some(Effect::FlameBurst),
            291 => Some(Effect::QuiverDance),
            292 => Some(Effect::MoreDamageWithUserTargetWeightRatio),
            293 => Some(Effect::Synchronoise),
            294 => Some(Effect::ElectroBall),
            295 => Some(Effect::Soak),
            296 => Some(Effect::FlameCharge),
            297 => Some(Effect::AcidSpray),
            298 => Some(Effect::FoulPlay),
            299 => Some(Effect::SimpleBeam),
            300 => Some(Effect::Entrainment),
            301 => Some(Effect::AfterYou),
            302 => Some(Effect::Round),
            303 => Some(Effect::EchoedVoice),
            304 => Some(Effect::IgnoresTargetStatModifiers),
            305 => Some(Effect::ClearSmog),
            306 => Some(Effect::StoredPower),
            307 => Some(Effect::QuickGuard),
            308 => Some(Effect::AllySwitch),
            309 => Some(Effect::ShellSmash),
            310 => Some(Effect::HealPulse),
            311 => Some(Effect::Hex),
            312 => Some(Effect::SkyDrop),
            313 => Some(Effect::ShiftGear),
            314 => Some(Effect::SwitchOutTargetAfterDamage),
            315 => Some(Effect::Incinerate),
            316 => Some(Effect::Quash),
            317 => Some(Effect::Growth),
            318 => Some(Effect::Acrobatics),
            319 => Some(Effect::ReflectType),
            320 => Some(Effect::Retaliate),
            321 => Some(Effect::FinalGambit),
            322 => Some(Effect::TailGlow),
            323 => Some(Effect::Coil),
            324 => Some(Effect::Bestow),
            325 => Some(Effect::WaterPledge),
            326 => Some(Effect::FirePledge),
            327 => Some(Effect::GrassPledge),
            328 => Some(Effect::WorkUp),
            329 => Some(Effect::CottonGuard),
            330 => Some(Effect::RelicSong),
            331 => Some(Effect::Glaciate),
            332 => Some(Effect::FreezeShock),
            333 => Some(Effect::IceBurn),
            335 => Some(Effect::VCreate),
            336 => Some(Effect::FusionFlare),
            337 => Some(Effect::FusionBolt),
            338 => Some(Effect::Hurricane),
            _ => None,
        }
    }

    fn count() -> (n: usize) {
        317
    }

    #[verifier::rlimit(100)]
    proof fn lemma_values_count() {
        let s = Seq::<Effect>::empty();
        assert(s.len() == 0);
        let s = s.push(Effect::RegularDamage);
        assert(s.len() == 1);
        let s = s.push(Effect::SleepTarget);
        assert(s.len() == 2);
        let s = s.push(Effect::ChancePoisonTarget);
        assert(s.len() == 3);
        let s = s.push(Effect::HealUserHalfInflicted);
        assert(s.len() == 4);
        let s = s.push(Effect::ChanceBurnTarget);
        assert(s.len() == 5);
        let s = s.push(Effect::ChanceFreezeTarget);
        assert(s.len() == 6);
        let s = s.push(Effect::ChanceParalyzeTarget);
        assert(s.len() == 7);
        let s = s.push(Effect::FaintUser);
        assert(s.len() == 8);
        let s = s.push(Effect::DreamEater);
        assert(s.len() == 9);
        let s = s.push(Effect::MirrorMove);
        assert(s.len() == 10);
        let s = s.push(Effect::RaiseUserAttack);
        assert(s.len() == 11);
        let s = s.push(Effect::RaiseUserDefense);
        assert(s.len() == 12);
        let s = s.push(Effect::RaiseUserSpecialAttack);
        assert(s.len() == 13);
        let s = s.push(Effect::RaiseUserEvasion);
        assert(s.len() == 14);
        let s = s.push(Effect::NeverMisses);
        assert(s.len() == 15);
        let s = s.push(Effect::LowerTargetAttack);
        assert(s.len() == 16);
        let s = s.push(Effect::LowerTargetDefense);
        assert(s.len() == 17);
        let s = s.push(Effect::LowerTargetSpeed);
        assert(s.len() == 18);
        let s = s.push(Effect::LowerTargetAccuracy);
        assert(s.len() == 19);
        let s = s.push(Effect::LowerTargetEvasion);
        assert(s.len() == 20);
        let s = s.push(Effect::Haze);
        assert(s.len() == 21);
        let s = s.push(Effect::Bide);
        assert(s.len() == 22);
        let s = s.push(Effect::Hit2To3TurnsThenConfuseUser);
        assert(s.len() == 23);
        let s = s.push(Effect::SwitchOutTarget);
        assert(s.len() == 24);
        let s = s.push(Effect::Hit2To5Times);
        assert(s.len() == 25);
        let s = s.push(Effect::Conversion);
        assert(s.len() == 26);
        let s = s.push(Effect::ChanceFlinchTarget);
        assert(s.len() == 27);
        let s = s.push(Effect::HealUserByHalfMaxHP);
        assert(s.len() == 28);
        let s = s.push(Effect::Toxic);
        assert(s.len() == 29);
        let s = s.push(Effect::PayDay);
        assert(s.len() == 30);
        let s = s.push(Effect::LightScreen);
        assert(s.len() == 31);
        let s = s.push(Effect::TriAttack);
        assert(s.len() == 32);
        let s = s.push(Effect::Rest);
        assert(s.len() == 33);
        let s = s.push(Effect::OneHitKO);
        assert(s.len() == 34);
        let s = s.push(Effect::RazorWind);
        assert(s.len() == 35);
        let s = s.push(Effect::SuperFang);
        assert(s.len() == 36);
        let s = s.push(Effect::DragonRage);
        assert(s.len() == 37);
        let s = s.push(Effect::SixteenthHP2To5Turns);
        assert(s.len() == 38);
        let s = s.push(Effect::IncreasedCritical);
        assert(s.len() == 39);
        let s = s.push(Effect::HitTwice);
        assert(s.len() == 40);
        let s = s.push(Effect::HalfRecoilIfMiss);
        assert(s.len() == 41);
        let s = s.push(Effect::Mist);
        assert(s.len() == 42);
        let s = s.push(Effect::FocusEnergy);
        assert(s.len() == 43);
        let s = s.push(Effect::QuarterRecoil);
        assert(s.len() == 44);
        let s = s.push(Effect::ConfuseTarget);
        assert(s.len() == 45);
        let s = s.push(Effect::RaiseUserAttack2);
        assert(s.len() == 46);
        let s = s.push(Effect::RaiseUserDefense2);
        assert(s.len() == 47);
        let s = s.push(Effect::RaiseUserSpeed2);
        assert(s.len() == 48);
        let s = s.push(Effect::RaiseUserSpecialAttack2);
        assert(s.len() == 49);
        let s = s.push(Effect::RaiseUserSpecialDefense2);
        assert(s.len() == 50);
        let s = s.push(Effect::Transform);
        assert(s.len() == 51);
        let s = s.push(Effect::LowerTargetAttack2);
        assert(s.len() == 52);
        let s = s.push(Effect::LowerTargetDefense2);
        assert(s.len() == 53);
        let s = s.push(Effect::LowerTargetSpeed2);
        assert(s.len() == 54);
        let s = s.push(Effect::LowerTargetSpecialDefense2);
        assert(s.len() == 55);
        let s = s.push(Effect::Reflect);
        assert(s.len() == 56);
        let s = s.push(Effect::PoisonTarget);
        assert(s.len() == 57);
        let s = s.push(Effect::ParalyzeTarget);
        assert(s.len() == 58);
        let s = s.push(Effect::ChanceLowerTargetAttack);
        assert(s.len() == 59);
        let s = s.push(Effect::ChanceLowerTargetDefense);
        assert(s.len() == 60);
        let s = s.push(Effect::ChanceLowerTargetSpeed);
        assert(s.len() == 61);
        let s = s.push(Effect::ChanceLowerTargetSpecialAttack);
        assert(s.len() == 62);
        let s = s.push(Effect::ChanceLowerTargetSpecialDefense);
        assert(s.len() == 63);
        let s = s.push(Effect::ChanceLowerTargetAccuracy);
        assert(s.len() == 64);
        let s = s.push(Effect::SkyAttack);
        assert(s.len() == 65);
        let s = s.push(Effect::ChanceConfuseTarget);
        assert(s.len() == 66);
        let s = s.push(Effect::Twineedle);
        assert(s.len() == 67);
        let s = s.push(Effect::VitalThrow);
        assert(s.len() == 68);
        let s = s.push(Effect::Substitute);
        assert(s.len() == 69);
        let s = s.push(Effect::RechargeNextTurn);
        assert(s.len() == 70);
        let s = s.push(Effect::Rage);
        assert(s.len() == 71);
        let s = s.push(Effect::Mimic);
        assert(s.len() == 72);
        let s = s.push(Effect::Metronome);
        assert(s.len() == 73);
        let s = s.push(Effect::LeechSeed);
        assert(s.len() == 74);
        let s = s.push(Effect::Splash);
        assert(s.len() == 75);
        let s = s.push(Effect::Disable);
        assert(s.len() == 76);
        let s = s.push(Effect::UserLevelDamage);
        assert(s.len() == 77);
        let s = s.push(Effect::Psywave);
        assert(s.len() == 78);
        let s = s.push(Effect::Counter);
        assert(s.len() == 79);
        let s = s.push(Effect::Encore);
        assert(s.len() == 80);
        let s = s.push(Effect::PainSplit);
        assert(s.len() == 81);
        let s = s.push(Effect::Snore);
        assert(s.len() == 82);
        let s = s.push(Effect::Conversion2);
        assert(s.len() == 83);
        let s = s.push(Effect::GuaranteeNextMoveHit);
        assert(s.len() == 84);
        let s = s.push(Effect::Sketch);
        assert(s.len() == 85);
        let s = s.push(Effect::SleepTalk);
        assert(s.len() == 86);
        let s = s.push(Effect::DestinyBond);
        assert(s.len() == 87);
        let s = s.push(Effect::MoreDamageWhenLessUserHP);
        assert(s.len() == 88);
        let s = s.push(Effect::Spite);
        assert(s.len() == 89);
        let s = s.push(Effect::FalseSwipe);
        assert(s.len() == 90);
        let s = s.push(Effect::CurePartyStatus);
        assert(s.len() == 91);
        let s = s.push(Effect::Fast);
        assert(s.len() == 92);
        let s = s.push(Effect::TripleKick);
        assert(s.len() == 93);
        let s = s.push(Effect::TakeTargetItem);
        assert(s.len() == 94);
        let s = s.push(Effect::PreventTargetLeaving);
        assert(s.len() == 95);
        let s = s.push(Effect::Nightmare);
        assert(s.len() == 96);
        let s = s.push(Effect::Minimize);
        assert(s.len() == 97);
        let s = s.push(Effect::Curse);
        assert(s.len() == 98);
        let s = s.push(Effect::PreventHitUser);
        assert(s.len() == 99);
        let s = s.push(Effect::Spikes);
        assert(s.len() == 100);
        let s = s.push(Effect::ResetTargetEvadeDisableGhostImmunity);
        assert(s.len() == 101);
        let s = s.push(Effect::PerishSong);
        assert(s.len() == 102);
        let s = s.push(Effect::Sandstorm);
        assert(s.len() == 103);
        let s = s.push(Effect::Endure);
        assert(s.len() == 104);
        let s = s.push(Effect::DoubleEachSuccessiveUseMod5Turns);
        assert(s.len() == 105);
        let s = s.push(Effect::Swagger);
        assert(s.len() == 106);
        let s = s.push(Effect::FuryCutter);
        assert(s.len() == 107);
        let s = s.push(Effect::Attract);
        assert(s.len() == 108);
        let s = s.push(Effect::Return);
        assert(s.len() == 109);
        let s = s.push(Effect::Present);
        assert(s.len() == 110);
        let s = s.push(Effect::Frustration);
        assert(s.len() == 111);
        let s = s.push(Effect::Safeguard);
        assert(s.len() == 112);
        let s = s.push(Effect::ChanceBurnTargetThawUser);
        assert(s.len() == 113);
        let s = s.push(Effect::Magnitude);
        assert(s.len() == 114);
        let s = s.push(Effect::BatonPass);
        assert(s.len() == 115);
        let s = s.push(Effect::Pursuit);
        assert(s.len() == 116);
        let s = s.push(Effect::RapidSpin);
        assert(s.len() == 117);
        let s = s.push(Effect::Sonicboom);
        assert(s.len() == 118);
        let s = s.push(Effect::HealUserByHalfMaxHPWeather);
        assert(s.len() == 119);
        let s = s.push(Effect::HiddenPower);
        assert(s.len() == 120);
        let s = s.push(Effect::RainDance);
        assert(s.len() == 121);
        let s = s.push(Effect::SunnyDay);
        assert(s.len() == 122);
        let s = s.push(Effect::ChanceRaiseUserDefense);
        assert(s.len() == 123);
        let s = s.push(Effect::ChanceRaiseUserAttack);
        assert(s.len() == 124);
        let s = s.push(Effect::ChanceRaiseUserAllStats);
        assert(s.len() == 125);
        let s = s.push(Effect::BellyDrum);
        assert(s.len() == 126);
        let s = s.push(Effect::PsychUp);
        assert(s.len() == 127);
        let s = s.push(Effect::MirrorCoat);
        assert(s.len() == 128);
        let s = s.push(Effect::SkullBash);
        assert(s.len() == 129);
        let s = s.push(Effect::Twister);
        assert(s.len() == 130);
        let s = s.push(Effect::Earthquake);
        assert(s.len() == 131);
        let s = s.push(Effect::HitTargetInTwoTurns);
        assert(s.len() == 132);
        let s = s.push(Effect::Gust);
        assert(s.len() == 133);
        let s = s.push(Effect::ChanceFlinchTargetDoubleMinimized);
        assert(s.len() == 134);
        let s = s.push(Effect::Solarbeam);
        assert(s.len() == 135);
        let s = s.push(Effect::Thunder);
        assert(s.len() == 136);
        let s = s.push(Effect::Teleport);
        assert(s.len() == 137);
        let s = s.push(Effect::BeatUp);
        assert(s.len() == 138);
        let s = s.push(Effect::Fly);
        assert(s.len() == 139);
        let s = s.push(Effect::DefenseCurl);
        assert(s.len() == 140);
        let s = s.push(Effect::FakeOut);
        assert(s.len() == 141);
        let s = s.push(Effect::Uproar);
        assert(s.len() == 142);
        let s = s.push(Effect::Stockpile);
        assert(s.len() == 143);
        let s = s.push(Effect::SpitUp);
        assert(s.len() == 144);
        let s = s.push(Effect::Swallow);
        assert(s.len() == 145);
        let s = s.push(Effect::Hail);
        assert(s.len() == 146);
        let s = s.push(Effect::Torment);
        assert(s.len() == 147);
        let s = s.push(Effect::Flatter);
        assert(s.len() == 148);
        let s = s.push(Effect::WillOWisp);
        assert(s.len() == 149);
        let s = s.push(Effect::Memento);
        assert(s.len() == 150);
        let s = s.push(Effect::Facade);
        assert(s.len() == 151);
        let s = s.push(Effect::FocusPunch);
        assert(s.len() == 152);
        let s = s.push(Effect::Smellingsalt);
        assert(s.len() == 153);
        let s = s.push(Effect::TargetUserThisTurn);
        assert(s.len() == 154);
        let s = s.push(Effect::NaturePower);
        assert(s.len() == 155);
        let s = s.push(Effect::Charge);
        assert(s.len() == 156);
        let s = s.push(Effect::Taunt);
        assert(s.len() == 157);
        let s = s.push(Effect::HelpingHand);
        assert(s.len() == 158);
        let s = s.push(Effect::SwapItems);
        assert(s.len() == 159);
        let s = s.push(Effect::RolePlay);
        assert(s.len() == 160);
        let s = s.push(Effect::Wish);
        assert(s.len() == 161);
        let s = s.push(Effect::Assist);
        assert(s.len() == 162);
        let s = s.push(Effect::Ingrain);
        assert(s.len() == 163);
        let s = s.push(Effect::Superpower);
        assert(s.len() == 164);
        let s = s.push(Effect::MagicCoat);
        assert(s.len() == 165);
        let s = s.push(Effect::Recycle);
        assert(s.len() == 166);
        let s = s.push(Effect::DoubleDamageIfUserHit);
        assert(s.len() == 167);
        let s = s.push(Effect::BrickBreak);
        assert(s.len() == 168);
        let s = s.push(Effect::Yawn);
        assert(s.len() == 169);
        let s = s.push(Effect::KnockOff);
        assert(s.len() == 170);
        let s = s.push(Effect::Endeavor);
        assert(s.len() == 171);
        let s = s.push(Effect::MoreDamageWhenMoreUserHP);
        assert(s.len() == 172);
        let s = s.push(Effect::SkillSwap);
        assert(s.len() == 173);
        let s = s.push(Effect::Imprison);
        assert(s.len() == 174);
        let s = s.push(Effect::Refresh);
        assert(s.len() == 175);
        let s = s.push(Effect::Grudge);
        assert(s.len() == 176);
        let s = s.push(Effect::Snatch);
        assert(s.len() == 177);
        let s = s.push(Effect::MoreDamageWhenTargetHeavier);
        assert(s.len() == 178);
        let s = s.push(Effect::SecretPower);
        assert(s.len() == 179);
        let s = s.push(Effect::ThirdRecoil);
        assert(s.len() == 180);
        let s = s.push(Effect::TeeterDance);
        assert(s.len() == 181);
        let s = s.push(Effect::BlazeKick);
        assert(s.len() == 182);
        let s = s.push(Effect::MudSport);
        assert(s.len() == 183);
        let s = s.push(Effect::PoisonFange);
        assert(s.len() == 184);
        let s = s.push(Effect::WeatherBall);
        assert(s.len() == 185);
        let s = s.push(Effect::LowerUserSpecialAttack2AfterDamage);
        assert(s.len() == 186);
        let s = s.push(Effect::LowerTargetAttackDefense);
        assert(s.len() == 187);
        let s = s.push(Effect::RaiseUserDefenseSpecialDefense);
        assert(s.len() == 188);
        let s = s.push(Effect::SkyUppercut);
        assert(s.len() == 189);
        let s = s.push(Effect::RaiseUserAttackDefense);
        assert(s.len() == 190);
        let s = s.push(Effect::IncreasedCriticalChancePoisonTarget);
        assert(s.len() == 191);
        let s = s.push(Effect::WaterSport);
        assert(s.len() == 192);
        let s = s.push(Effect::RaiseUserSpecialAttackSpecialDefense);
        assert(s.len() == 193);
        let s = s.push(Effect::RaiseUserAttackSpeed);
        assert(s.len() == 194);
        let s = s.push(Effect::Camouflage);
        assert(s.len() == 195);
        let s = s.push(Effect::Roost);
        assert(s.len() == 196);
        let s = s.push(Effect::Gravity);
        assert(s.len() == 197);
        let s = s.push(Effect::MiracleEye);
        assert(s.len() == 198);
        let s = s.push(Effect::WakeUpSlap);
        assert(s.len() == 199);
        let s = s.push(Effect::HammerArm);
        assert(s.len() == 200);
        let s = s.push(Effect::GyroBall);
        assert(s.len() == 201);
        let s = s.push(Effect::HealingWish);
        assert(s.len() == 202);
        let s = s.push(Effect::Brine);
        assert(s.len() == 203);
        let s = s.push(Effect::NaturalGift);
        assert(s.len() == 204);
        let s = s.push(Effect::Feint);
        assert(s.len() == 205);
        let s = s.push(Effect::DoubleIfTargetBerry);
        assert(s.len() == 206);
        let s = s.push(Effect::Tailwind);
        assert(s.len() == 207);
        let s = s.push(Effect::Accupressure);
        assert(s.len() == 208);
        let s = s.push(Effect::MetalBurst);
        assert(s.len() == 209);
        let s = s.push(Effect::UserSwitchOutAfterAttack);
        assert(s.len() == 210);
        let s = s.push(Effect::CloseCombat);
        assert(s.len() == 211);
        let s = s.push(Effect::Payback);
        assert(s.len() == 212);
        let s = s.push(Effect::Assurance);
        assert(s.len() == 213);
        let s = s.push(Effect::Embargo);
        assert(s.len() == 214);
        let s = s.push(Effect::Fling);
        assert(s.len() == 215);
        let s = s.push(Effect::PsychoShift);
        assert(s.len() == 216);
        let s = s.push(Effect::TrumpCard);
        assert(s.len() == 217);
        let s = s.push(Effect::HealBlock);
        assert(s.len() == 218);
        let s = s.push(Effect::MoreDamageWhenMoreTargetHP);
        assert(s.len() == 219);
        let s = s.push(Effect::PowerTrick);
        assert(s.len() == 220);
        let s = s.push(Effect::GastroAcid);
        assert(s.len() == 221);
        let s = s.push(Effect::LuckyChant);
        assert(s.len() == 222);
        let s = s.push(Effect::MeFirst);
        assert(s.len() == 223);
        let s = s.push(Effect::Copycat);
        assert(s.len() == 224);
        let s = s.push(Effect::PowerSwap);
        assert(s.len() == 225);
        let s = s.push(Effect::GuardSwap);
        assert(s.len() == 226);
        let s = s.push(Effect::Punishment);
        assert(s.len() == 227);
        let s = s.push(Effect::LastResort);
        assert(s.len() == 228);
        let s = s.push(Effect::WorrySeed);
        assert(s.len() == 229);
        let s = s.push(Effect::SuckerPunch);
        assert(s.len() == 230);
        let s = s.push(Effect::ToxicSpokes);
        assert(s.len() == 231);
        let s = s.push(Effect::HeartSwap);
        assert(s.len() == 232);
        let s = s.push(Effect::AquaRing);
        assert(s.len() == 233);
        let s = s.push(Effect::MagnetRise);
        assert(s.len() == 234);
        let s = s.push(Effect::FlareBlitz);
        assert(s.len() == 235);
        let s = s.push(Effect::Struggle);
        assert(s.len() == 236);
        let s = s.push(Effect::Dive);
        assert(s.len() == 237);
        let s = s.push(Effect::Dig);
        assert(s.len() == 238);
        let s = s.push(Effect::Surf);
        assert(s.len() == 239);
        let s = s.push(Effect::Defog);
        assert(s.len() == 240);
        let s = s.push(Effect::TrickRoom);
        assert(s.len() == 241);
        let s = s.push(Effect::Blizzard);
        assert(s.len() == 242);
        let s = s.push(Effect::Whirlpool);
        assert(s.len() == 243);
        let s = s.push(Effect::VoltTackle);
        assert(s.len() == 244);
        let s = s.push(Effect::Bounce);
        assert(s.len() == 245);
        let s = s.push(Effect::Captivate);
        assert(s.len() == 246);
        let s = s.push(Effect::StealthRock);
        assert(s.len() == 247);
        let s = s.push(Effect::Chatter);
        assert(s.len() == 248);
        let s = s.push(Effect::PlateDriveType);
        assert(s.len() == 249);
        let s = s.push(Effect::HeadSmash);
        assert(s.len() == 250);
        let s = s.push(Effect::LunarDance);
        assert(s.len() == 251);
        let s = s.push(Effect::SeedFlare);
        assert(s.len() == 252);
        let s = s.push(Effect::ShadowForce);
        assert(s.len() == 253);
        let s = s.push(Effect::FireFang);
        assert(s.len() == 254);
        let s = s.push(Effect::IceFang);
        assert(s.len() == 255);
        let s = s.push(Effect::ThunderFang);
        assert(s.len() == 256);
        let s = s.push(Effect::ChanceRaiseUserSpecialAttack);
        assert(s.len() == 257);
        let s = s.push(Effect::HoneClaws);
        assert(s.len() == 258);
        let s = s.push(Effect::WideGuard);
        assert(s.len() == 259);
        let s = s.push(Effect::GuardSplit);
        assert(s.len() == 260);
        let s = s.push(Effect::PowerSplit);
        assert(s.len() == 261);
        let s = s.push(Effect::WonderRoom);
        assert(s.len() == 262);
        let s = s.push(Effect::UseTargetDefenseNotSpecial);
        assert(s.len() == 263);
        let s = s.push(Effect::Venoshock);
        assert(s.len() == 264);
        let s = s.push(Effect::Autotomize);
        assert(s.len() == 265);
        let s = s.push(Effect::Telekinesis);
        assert(s.len() == 266);
        let s = s.push(Effect::MagicRoom);
        assert(s.len() == 267);
        let s = s.push(Effect::SmackDown);
        assert(s.len() == 268);
        let s = s.push(Effect::AlwaysCritical);
        assert(s.len() == 269);
        let s = s.push(Effect::FlameBurst);
        assert(s.len() == 270);
        let s = s.push(Effect::QuiverDance);
        assert(s.len() == 271);
        let s = s.push(Effect::MoreDamageWithUserTargetWeightRatio);
        assert(s.len() == 272);
        let s = s.push(Effect::Synchronoise);
        assert(s.len() == 273);
        let s = s.push(Effect::ElectroBall);
        assert(s.len() == 274);
        let s = s.push(Effect::Soak);
        assert(s.len() == 275);
        let s = s.push(Effect::FlameCharge);
        assert(s.len() == 276);
        let s = s.push(Effect::AcidSpray);
        assert(s.len() == 277);
        let s = s.push(Effect::FoulPlay);
        assert(s.len() == 278);
        let s = s.push(Effect::SimpleBeam);
        assert(s.len() == 279);
        let s = s.push(Effect::Entrainment);
        assert(s.len() == 280);
        let s = s.push(Effect::AfterYou);
        assert(s.len() == 281);
        let s = s.push(Effect::Round);
        assert(s.len() == 282);
        let s = s.push(Effect::EchoedVoice);
        assert(s.len() == 283);
        let s = s.push(Effect::IgnoresTargetStatModifiers);
        assert(s.len() == 284);
        let s = s.push(Effect::ClearSmog);
        assert(s.len() == 285);
        let s = s.push(Effect::StoredPower);
        assert(s.len() == 286);
        let s = s.push(Effect::QuickGuard);
        assert(s.len() == 287);
        let s = s.push(Effect::AllySwitch);
        assert(s.len() == 288);
        let s = s.push(Effect::ShellSmash);
        assert(s.len() == 289);
        let s = s.push(Effect::HealPulse);
        assert(s.len() == 290);
        let s = s.push(Effect::Hex);
        assert(s.len() == 291);
        let s = s.push(Effect::SkyDrop);
        assert(s.len() == 292);
        let s = s.push(Effect::ShiftGear);
        assert(s.len() == 293);
        let s = s.push(Effect::SwitchOutTargetAfterDamage);
        assert(s.len() == 294);
        let s = s.push(Effect::Incinerate);
        assert(s.len() == 295);
        let s = s.push(Effect::Quash);
        assert(s.len() == 296);
        let s = s.push(Effect::Growth);
        assert(s.len() == 297);
        let s = s.push(Effect::Acrobatics);
        assert(s.len() == 298);
        let s = s.push(Effect::ReflectType);
        assert(s.len() == 299);
        let s = s.push(Effect::Retaliate);
        assert(s.len() == 300);
        let s = s.push(Effect::FinalGambit);
        assert(s.len() == 301);
        let s = s.push(Effect::TailGlow);
        assert(s.len() == 302);
        let s = s.push(Effect::Coil);
        assert(s.len() == 303);
        let s = s.push(Effect::Bestow);
        assert(s.len() == 304);
        let s = s.push(Effect::WaterPledge);
        assert(s.len() == 305);
        let s = s.push(Effect::FirePledge);
        assert(s.len() == 306);
        let s = s.push(Effect::GrassPledge);
        assert(s.len() == 307);
        let s = s.push(Effect::WorkUp);
        assert(s.len() == 308);
        let s = s.push(Effect::CottonGuard);
        assert(s.len() == 309);
        let s = s.push(Effect::RelicSong);
        assert(s.len() == 310);
        let s = s.push(Effect::Glaciate);
        assert(s.len() == 311);
        let s = s.push(Effect::FreezeShock);
        assert(s.len() == 312);
        let s = s.push(Effect::IceBurn);
        assert(s.len() == 313);
        let s = s.push(Effect::VCreate);
        assert(s.len() == 314);
        let s = s.push(Effect::FusionFlare);
        assert(s.len() == 315);
        let s = s.push(Effect::FusionBolt);
        assert(s.len() == 316);
        let s = s.push(Effect::Hurricane);
        assert(s.len() == 317);
        assert(s == Self::spec_values());
    }

    proof fn lemma_round_trip(self) {
    }
}

impl Default for Effect {
    fn default() -> (r: Self)
        ensures
            r == Effect::Splash,
    {
        Effect::Splash
    }
}

impl FromVeekun for Effect {
    type Intermediate = u16;

    open spec fn spec_from_veekun(value: u16) -> Option<Self> {
        Self::spec_from_repr(value as i32)
    }

    fn from_veekun(value: u16) -> (r: Option<Self>) {
        Self::from_repr(value as i32)
    }
}
} // verus!
