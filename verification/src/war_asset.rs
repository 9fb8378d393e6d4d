//! Domain-tagged integer identifiers for the "war asset" key domain.
//!
//! A `WarAsset` wraps a bare 32-bit id; a fixed table maps each known id to
//! its display name, and every unknown id maps to the `"<Unknown>"` marker.

use vstd::prelude::*;

verus! {

/// A named asset identifier: one of the three key domains of the ordered
/// keyed collection.
#[derive(Clone, Copy, PartialEq, Eq, Hash, Debug, Structural)]
pub struct WarAsset(pub i32);

/// The display name of an asset id: the fixed lookup table, with
/// `"<Unknown>"` for every id outside it.
pub open spec fn war_asset_name(id: i32) -> Seq<char> {
    match id {
        6i32 => "TerminusFleet_Military"@,
        7i32 => "BloodPackFlotilla_Modifier"@,
        8i32 => "BlueSunsFlotilla_Modifier"@,
        9i32 => "EclipseFlotilla_Modifier"@,
        52i32 => "RachniiWorkers_Military"@,
        58i32 => "VolusDreadnaughtKwunu_Military"@,
        76i32 => "ShadowBrokerSupportTeam_Military"@,
        112i32 => "ElcorFlotilla_Military"@,
        147i32 => "ShadowBrokerWetSquad_Military"@,
        179i32 => "SpectreTeam_Military"@,
        182i32 => "VolusBombingFleet_Military"@,
        185i32 => "HanarAndDrellForces_Military"@,
        248i32 => "ImprovedHanarMedicalTech_Modifier"@,
        193i32 => "BatarianFleet_Military"@,
        195i32 => "CommanderKahairalBalak_Modifier"@,
        254i32 => "PillarsOfStrengthBonus_Modifier"@,
        207i32 => "CitadelDefenseForce_Military"@,
        225i32 => "SupportedCitadelRefugees_Modifier"@,
        226i32 => "CivilianMedicalVolunteers_Modifier"@,
        227i32 => "ReassuredArguingCouple_Modifier"@,
        228i32 => "AsariPatientSuicide_Modifier"@,
        229i32 => "ImproveCivilianMorale_Modifier"@,
        231i32 => "LoweredCrime_Modifier"@,
        232i32 => "FewerRefugees_Modifier"@,
        234i32 => "MedicalSuppliesReleased_Modifier"@,
        235i32 => "IncreasedSurveillance_Modifier"@,
        236i32 => "CivilianMilitia_Modifier"@,
        237i32 => "IncreasedCrimeRate_Modifier"@,
        238i32 => "GrissomStudentHousing_Modifier"@,
        240i32 => "EnforceEveryLaw_Modifier"@,
        241i32 => "CrackDownOnTerror_Modifier"@,
        242i32 => "CivilianDonations_Modifier"@,
        245i32 => "GethJammingFrequencies_Modifier"@,
        246i32 => "CerberusTurretSchematics_Modifier"@,
        247i32 => "ImprovedAsariAmps_Modifier"@,
        255i32 => "BookOfPlenixBonus_Modifier"@,
        261i32 => "CodeOfTheAncientsBonus_Modifier"@,
        262i32 => "RingsOfAluneBonus_Modifier"@,
        0i32 => "AllianceEngineeringCorp_Military"@,
        163i32 => "BreederQueenBetrayal_Modifier"@,
        257i32 => "ProtheanDataDrivesBonus_Modifier"@,
        259i32 => "ObeliskOfKarzaBonus_Modifier"@,
        263i32 => "HesperiaPeriodStatueBonus_Modifier"@,
        1i32 => "103rdMarineDivision_Military"@,
        17i32 => "AllianceSpecOpsTeamEcho_Modifier"@,
        126i32 => "AllianceMarineRecon_Modifier"@,
        138i32 => "BioticSupport_Modifier"@,
        140i32 => "ArrivalNotCompleted_Modifier"@,
        220i32 => "AntiCerberusInterview_Modifier"@,
        2i32 => "AdmiralMikhailovich_Military"@,
        139i32 => "SavedTheCouncilInME1_Modifier"@,
        3i32 => "Alliance1stFleet_Military"@,
        16i32 => "AllianceFrigateAgrincourt_Modifier"@,
        110i32 => "AllianceFrigateLeipzig_Modifier"@,
        251i32 => "ChemicalBurnTreatments_Modifier"@,
        4i32 => "Alliance3rdFleet_Military"@,
        37i32 => "AllianceCruiserLondon_Modifier"@,
        127i32 => "AllianceFrigateTrafalger_Modifier"@,
        194i32 => "SabotagedAllianceShips_Modifier"@,
        230i32 => "AllianceFleetLosses_Modifier"@,
        190i32 => "CerberusAttack_Modifier"@,
        28i32 => "KhaleeSanders_Military"@,
        201i32 => "TechStudentsRescued_Modifier"@,
        202i32 => "SandersArcherUpgrade_Modifier"@,
        29i32 => "BioticCompany_Military"@,
        30i32 => "Jack_Military"@,
        63i32 => "Arcturus1stDivision_Military"@,
        68i32 => "AllianceSpecOpsTeamDelta_Military"@,
        69i32 => "AllianceCruiserShanghai_Military"@,
        71i32 => "NavalEngineeringFlotilla_Military"@,
        114i32 => "CommnicationsArray_Military"@,
        128i32 => "Alliance6thFleet_Military"@,
        131i32 => "DrChakwas_Military"@,
        134i32 => "RogueFighterSquadron_Military"@,
        135i32 => "N7SpecialOps_External"@,
        108i32 => "AllianceFrigateHongKong_Modifier"@,
        173i32 => "Alliance5thFleet_Military"@,
        219i32 => "ProSecurityInterview_Modifier"@,
        233i32 => "SmugglerContacts_Modifier"@,
        239i32 => "ImprovedTargetingVIs_Modifier"@,
        249i32 => "CerberusCiphers_Modifier"@,
        180i32 => "Kasumi_Military"@,
        181i32 => "Zaeed_Military"@,
        184i32 => "DarkEnergyDissertationUpgrade_Modifier"@,
        186i32 => "DianaAllers_Military"@,
        187i32 => "Normandy_Military"@,
        188i32 => "UpgradedThanix_Modifier"@,
        199i32 => "UpgradedHeavyShipArmor_Modifier"@,
        200i32 => "UpgradedShield_Modifier"@,
        203i32 => "MineralResources_Military"@,
        206i32 => "ShialaAndZhusHopeColonists_Military"@,
        208i32 => "Ashley_MIlitary"@,
        209i32 => "Kaiden_MIlitary"@,
        215i32 => "KhalisahBintSinanAlJilani_Military"@,
        266i32 => "NeverPunchedReporter_Modifier"@,
        264i32 => "MineralResources2_Military"@,
        265i32 => "MineralResources3_Military"@,
        77i32 => "AsariScienceTeam_Military"@,
        78i32 => "Asari2ndFleet_Military"@,
        192i32 => "AsariCommandos_Modifier"@,
        244i32 => "ReaperCodeFragment_Modifier"@,
        79i32 => "Asari6thFleet_Military"@,
        256i32 => "ImprovedHuntressTraining_Modifier"@,
        80i32 => "DestinyAscension_Military"@,
        91i32 => "AsariCommandoTeam4_Military"@,
        92i32 => "Samara_Military"@,
        115i32 => "AsariScientist_Military"@,
        116i32 => "AsariCommandoUnit1_Military"@,
        117i32 => "AsariCommandoUnit2_Military"@,
        120i32 => "AsariCruiser1_Military"@,
        121i32 => "AsariResearchShips_Military"@,
        122i32 => "AsariCruiser2_Military"@,
        123i32 => "AsariEngineeringTeam_Military"@,
        205i32 => "MatriarchGallaesElectronicSignature_Intel"@,
        18i32 => "AdvancedStarshipFuel_Military"@,
        32i32 => "ElementZeroCore_Military"@,
        54i32 => "JavelinMissileLaunchers_Military"@,
        56i32 => "FabricationUnits_Military"@,
        59i32 => "VolusEngineeringTeam_Military"@,
        65i32 => "InterfermetricArray_Military"@,
        66i32 => "ExoGeniScientists_Military"@,
        72i32 => "ProtheanDataFiles_Military"@,
        73i32 => "ShadowBrokerShipTech_Military"@,
        75i32 => "TerminusFreighters_Military"@,
        94i32 => "EezoConverter_Military"@,
        96i32 => "FuelPods_Military"@,
        97i32 => "AdvancedPowerRelays_Military"@,
        99i32 => "HaptiveOpticsArray_Military"@,
        129i32 => "ReaperBrain_Military"@,
        130i32 => "ReaperHeart_Military"@,
        132i32 => "OptimizedEezoCapacitors_Military"@,
        159i32 => "AdvancedAIRelays_Military"@,
        183i32 => "DarkEnergyDissertation_Military"@,
        31i32 => "CerberusResearch_Military"@,
        33i32 => "CerberusFlotilla_Military"@,
        38i32 => "AdvancedFighterSquadron_Military"@,
        84i32 => "CerberusScienceTeam_Military"@,
        85i32 => "DrBrynnCole_Military"@,
        86i32 => "DrGavinArcher_Military"@,
        87i32 => "Jacob_Military"@,
        133i32 => "CerberusExPatriots_Military"@,
        136i32 => "CerberusEscapees_External"@,
        172i32 => "Miranda_Military"@,
        46i32 => "Wreav_Military"@,
        47i32 => "Wrex_Military"@,
        145i32 => "UrdnotBetrayal_Modifier"@,
        48i32 => "Grunt_Military"@,
        49i32 => "AralahkCompany_Military"@,
        148i32 => "GruntAlive_Modifier"@,
        149i32 => "GruntLoyal_Modifier"@,
        150i32 => "SaveQueen_Modifier"@,
        83i32 => "Krogan1stDivision_Military"@,
        141i32 => "KroganClans_Military"@,
        142i32 => "ClanTurmoil_Modifier"@,
        143i32 => "MassiveExplosion_Modifier"@,
        217i32 => "ProKroganInterview_Modifier"@,
        258i32 => "KaklisaurSkull_Modifier"@,
        144i32 => "ClanUrdnot_Military"@,
        167i32 => "MassiveExplosionA_Modifier"@,
        252i32 => "KroganPowerGrids_Modifier"@,
        174i32 => "KroganMercenaries_Military"@,
        102i32 => "GethArmyCorp_Military"@,
        222i32 => "GethInterviewGethKickAss_Modifier"@,
        103i32 => "GethFleet_Military"@,
        221i32 => "GethInterviewCooperation_Modifier"@,
        104i32 => "GethPrimeC13Unit_Military"@,
        268i32 => "DestroyTheGeth_Modifier"@,
        155i32 => "GethFighters_Modifier"@,
        210i32 => "GethHereticsSaved_Modifier"@,
        216i32 => "GethHereticsDestroyed_Modifier"@,
        24i32 => "MajorKirrahe_Military"@,
        151i32 => "KirraheSavesSalarianCaptain_Modifier"@,
        25i32 => "SalarianSTG1_Military"@,
        41i32 => "Salarian1stFleet_Military"@,
        146i32 => "MordinSolus_Military"@,
        152i32 => "STGTaskForce_Military"@,
        171i32 => "Salarian3rdFleet_Military"@,
        250i32 => "SalarianColonySupport_Modifier"@,
        11i32 => "TurianFlotilla_Military"@,
        12i32 => "Turian6thFleet_Military"@,
        243i32 => "CuredTurianGeneral_Modifier"@,
        42i32 => "Turian43rdMarineDivision_Military"@,
        43i32 => "Turian7thFleet_Military"@,
        191i32 => "TurianMedigel_Modifier"@,
        218i32 => "ProKroganInterviewNeedTurians_Modifier"@,
        253i32 => "Bannerofthe1stRegimentBonus_Modifier"@,
        44i32 => "TurianBlackwatch1_Military"@,
        45i32 => "TurianEngineeringCorp_Military"@,
        100i32 => "TurianSpecOpsTeam_Military"@,
        82i32 => "AdmiralDaroXen_Military"@,
        158i32 => "KillXen_Modifier"@,
        175i32 => "KeepXenAlive_Modifier"@,
        101i32 => "AdmiralZaelKoris_Military"@,
        269i32 => "DestroyTheQuarians_Modifier"@,
        105i32 => "QuarianCivilianFleet_Military"@,
        154i32 => "AdmiralDies_Modifier"@,
        223i32 => "QuarianInterviewReadiness_Modifier"@,
        106i32 => "QuarianHeavyFleet_Military"@,
        156i32 => "SupportRaanAgainstHanJorel_Modifier"@,
        157i32 => "SupportHanJorelAgainstRaan_Modifier"@,
        224i32 => "QuarianInterviewMilitary_Modifier"@,
        107i32 => "QuarianPatrolFleet_Military"@,
        260i32 => "ProtheanSphereBonus_Modifier"@,
        10i32 => "BannerOfThe1stRegiment_Artifact"@,
        13i32 => "FusionReactor_Salvage"@,
        14i32 => "DataCache_Salvage"@,
        15i32 => "FuelStorageDepot_Salvage"@,
        20i32 => "PillarsOfStrength_Artifact"@,
        21i32 => "ProcessingVIs_Salvage"@,
        22i32 => "BattleFootage_Intel"@,
        34i32 => "ProtheanObelisk_Artifact"@,
        35i32 => "WeaponsCache_Salvage"@,
        36i32 => "SecurityVI_Salvage"@,
        53i32 => "WeaponCache_Salvage"@,
        55i32 => "IntelligenceArchives_Intel"@,
        57i32 => "BookOfPlenix_Artifact"@,
        64i32 => "BattleofArcturusIntel_Intel"@,
        70i32 => "DestroyedMiniReaper_Intel"@,
        74i32 => "LifeSupportPods_Salvage"@,
        88i32 => "EngineParts_Salvage"@,
        89i32 => "LibraryOfAsha_Artifact"@,
        93i32 => "IntactReaperGun_Intel"@,
        95i32 => "ProtheanDataDrives_Artifact"@,
        98i32 => "FossilizedKaklisaur_Artifact"@,
        109i32 => "ProtheanSphere_Artifact"@,
        111i32 => "ObeliskOfKarza_Artifact"@,
        113i32 => "CodeOfTheAncients_Artifact"@,
        118i32 => "EezoTanker_Salvage"@,
        119i32 => "RingsOfAlune_Artifact"@,
        124i32 => "HesperiaPeriodStatue_Artifact"@,
        125i32 => "BioticResearchData_Intel"@,
        137i32 => "GeneralSherman_External"@,
        176i32 => "LegionIntel1_Intel"@,
        177i32 => "LegionIntel2_Intel"@,
        178i32 => "AdvancedBioticAmps_Intel"@,
        204i32 => "PrejekPaddlefish_Intel"@,
        214i32 => "FeronIntel_Intel"@,
        267i32 => "BlackMarketArtifacts_Quest"@,
        _ => "<Unknown>"@,
    }
}

impl WarAsset {
    /// The display name of this asset id, from the fixed table.
    pub fn as_str(&self) -> (r: &'static str)
        ensures
            r@ == war_asset_name(self.0),
    {
        match self.0 {
            6i32 => "TerminusFleet_Military",
            7i32 => "BloodPackFlotilla_Modifier",
            8i32 => "BlueSunsFlotilla_Modifier",
            9i32 => "EclipseFlotilla_Modifier",
            52i32 => "RachniiWorkers_Military",
            58i32 => "VolusDreadnaughtKwunu_Military",
            76i32 => "ShadowBrokerSupportTeam_Military",
            112i32 => "ElcorFlotilla_Military",
            147i32 => "ShadowBrokerWetSquad_Military",
            179i32 => "SpectreTeam_Military",
            182i32 => "VolusBombingFleet_Military",
            185i32 => "HanarAndDrellForces_Military",
            248i32 => "ImprovedHanarMedicalTech_Modifier",
            193i32 => "BatarianFleet_Military",
            195i32 => "CommanderKahairalBalak_Modifier",
            254i32 => "PillarsOfStrengthBonus_Modifier",
            207i32 => "CitadelDefenseForce_Military",
            225i32 => "SupportedCitadelRefugees_Modifier",
            226i32 => "CivilianMedicalVolunteers_Modifier",
            227i32 => "ReassuredArguingCouple_Modifier",
            228i32 => "AsariPatientSuicide_Modifier",
            229i32 => "ImproveCivilianMorale_Modifier",
            231i32 => "LoweredCrime_Modifier",
            232i32 => "FewerRefugees_Modifier",
            234i32 => "MedicalSuppliesReleased_Modifier",
            235i32 => "IncreasedSurveillance_Modifier",
            236i32 => "CivilianMilitia_Modifier",
            237i32 => "IncreasedCrimeRate_Modifier",
            238i32 => "GrissomStudentHousing_Modifier",
            240i32 => "EnforceEveryLaw_Modifier",
            241i32 => "CrackDownOnTerror_Modifier",
            242i32 => "CivilianDonations_Modifier",
            245i32 => "GethJammingFrequencies_Modifier",
            246i32 => "CerberusTurretSchematics_Modifier",
            247i32 => "ImprovedAsariAmps_Modifier",
            255i32 => "BookOfPlenixBonus_Modifier",
            261i32 => "CodeOfTheAncientsBonus_Modifier",
            262i32 => "RingsOfAluneBonus_Modifier",
            0i32 => "AllianceEngineeringCorp_Military",
            163i32 => "BreederQueenBetrayal_Modifier",
            257i32 => "ProtheanDataDrivesBonus_Modifier",
            259i32 => "ObeliskOfKarzaBonus_Modifier",
            263i32 => "HesperiaPeriodStatueBonus_Modifier",
            1i32 => "103rdMarineDivision_Military",
            17i32 => "AllianceSpecOpsTeamEcho_Modifier",
            126i32 => "AllianceMarineRecon_Modifier",
            138i32 => "BioticSupport_Modifier",
            140i32 => "ArrivalNotCompleted_Modifier",
            220i32 => "AntiCerberusInterview_Modifier",
            2i32 => "AdmiralMikhailovich_Military",
            139i32 => "SavedTheCouncilInME1_Modifier",
            3i32 => "Alliance1stFleet_Military",
            16i32 => "AllianceFrigateAgrincourt_Modifier",
            110i32 => "AllianceFrigateLeipzig_Modifier",
            251i32 => "ChemicalBurnTreatments_Modifier",
            4i32 => "Alliance3rdFleet_Military",
            37i32 => "AllianceCruiserLondon_Modifier",
            127i32 => "AllianceFrigateTrafalger_Modifier",
            194i32 => "SabotagedAllianceShips_Modifier",
            230i32 => "AllianceFleetLosses_Modifier",
            190i32 => "CerberusAttack_Modifier",
            28i32 => "KhaleeSanders_Military",
            201i32 => "TechStudentsRescued_Modifier",
            202i32 => "SandersArcherUpgrade_Modifier",
            29i32 => "BioticCompany_Military",
            30i32 => "Jack_Military",
            63i32 => "Arcturus1stDivision_Military",
            68i32 => "AllianceSpecOpsTeamDelta_Military",
            69i32 => "AllianceCruiserShanghai_Military",
            71i32 => "NavalEngineeringFlotilla_Military",
            114i32 => "CommnicationsArray_Military",
            128i32 => "Alliance6thFleet_Military",
            131i32 => "DrChakwas_Military",
            134i32 => "RogueFighterSquadron_Military",
            135i32 => "N7SpecialOps_External",
            108i32 => "AllianceFrigateHongKong_Modifier",
            173i32 => "Alliance5thFleet_Military",
            219i32 => "ProSecurityInterview_Modifier",
            233i32 => "SmugglerContacts_Modifier",
            239i32 => "ImprovedTargetingVIs_Modifier",
            249i32 => "CerberusCiphers_Modifier",
            180i32 => "Kasumi_Military",
            181i32 => "Zaeed_Military",
            184i32 => "DarkEnergyDissertationUpgrade_Modifier",
            186i32 => "DianaAllers_Military",
            187i32 => "Normandy_Military",
            188i32 => "UpgradedThanix_Modifier",
            199i32 => "UpgradedHeavyShipArmor_Modifier",
            200i32 => "UpgradedShield_Modifier",
            203i32 => "MineralResources_Military",
            206i32 => "ShialaAndZhusHopeColonists_Military",
            208i32 => "Ashley_MIlitary",
            209i32 => "Kaiden_MIlitary",
            215i32 => "KhalisahBintSinanAlJilani_Military",
            266i32 => "NeverPunchedReporter_Modifier",
            264i32 => "MineralResources2_Military",
            265i32 => "MineralResources3_Military",
            77i32 => "AsariScienceTeam_Military",
            78i32 => "Asari2ndFleet_Military",
            192i32 => "AsariCommandos_Modifier",
            244i32 => "ReaperCodeFragment_Modifier",
            79i32 => "Asari6thFleet_Military",
            256i32 => "ImprovedHuntressTraining_Modifier",
            80i32 => "DestinyAscension_Military",
            91i32 => "AsariCommandoTeam4_Military",
            92i32 => "Samara_Military",
            115i32 => "AsariScientist_Military",
            116i32 => "AsariCommandoUnit1_Military",
            117i32 => "AsariCommandoUnit2_Military",
            120i32 => "AsariCruiser1_Military",
            121i32 => "AsariResearchShips_Military",
            122i32 => "AsariCruiser2_Military",
            123i32 => "AsariEngineeringTeam_Military",
            205i32 => "MatriarchGallaesElectronicSignature_Intel",
            18i32 => "AdvancedStarshipFuel_Military",
            32i32 => "ElementZeroCore_Military",
            54i32 => "JavelinMissileLaunchers_Military",
            56i32 => "FabricationUnits_Military",
            59i32 => "VolusEngineeringTeam_Military",
            65i32 => "InterfermetricArray_Military",
            66i32 => "ExoGeniScientists_Military",
            72i32 => "ProtheanDataFiles_Military",
            73i32 => "ShadowBrokerShipTech_Military",
            75i32 => "TerminusFreighters_Military",
            94i32 => "EezoConverter_Military",
            96i32 => "FuelPods_Military",
            97i32 => "AdvancedPowerRelays_Military",
            99i32 => "HaptiveOpticsArray_Military",
            129i32 => "ReaperBrain_Military",
            130i32 => "ReaperHeart_Military",
            132i32 => "OptimizedEezoCapacitors_Military",
            159i32 => "AdvancedAIRelays_Military",
            183i32 => "DarkEnergyDissertation_Military",
            31i32 => "CerberusResearch_Military",
            33i32 => "CerberusFlotilla_Military",
            38i32 => "AdvancedFighterSquadron_Military",
            84i32 => "CerberusScienceTeam_Military",
            85i32 => "DrBrynnCole_Military",
            86i32 => "DrGavinArcher_Military",
            87i32 => "Jacob_Military",
            133i32 => "CerberusExPatriots_Military",
            136i32 => "CerberusEscapees_External",
            172i32 => "Miranda_Military",
            46i32 => "Wreav_Military",
            47i32 => "Wrex_Military",
            145i32 => "UrdnotBetrayal_Modifier",
            48i32 => "Grunt_Military",
            49i32 => "AralahkCompany_Military",
            148i32 => "GruntAlive_Modifier",
            149i32 => "GruntLoyal_Modifier",
            150i32 => "SaveQueen_Modifier",
            83i32 => "Krogan1stDivision_Military",
            141i32 => "KroganClans_Military",
            142i32 => "ClanTurmoil_Modifier",
            143i32 => "MassiveExplosion_Modifier",
            217i32 => "ProKroganInterview_Modifier",
            258i32 => "KaklisaurSkull_Modifier",
            144i32 => "ClanUrdnot_Military",
            167i32 => "MassiveExplosionA_Modifier",
            252i32 => "KroganPowerGrids_Modifier",
            174i32 => "KroganMercenaries_Military",
            102i32 => "GethArmyCorp_Military",
            222i32 => "GethInterviewGethKickAss_Modifier",
            103i32 => "GethFleet_Military",
            221i32 => "GethInterviewCooperation_Modifier",
            104i32 => "GethPrimeC13Unit_Military",
            268i32 => "DestroyTheGeth_Modifier",
            155i32 => "GethFighters_Modifier",
            210i32 => "GethHereticsSaved_Modifier",
            216i32 => "GethHereticsDestroyed_Modifier",
            24i32 => "MajorKirrahe_Military",
            151i32 => "KirraheSavesSalarianCaptain_Modifier",
            25i32 => "SalarianSTG1_Military",
            41i32 => "Salarian1stFleet_Military",
            146i32 => "MordinSolus_Military",
            152i32 => "STGTaskForce_Military",
            171i32 => "Salarian3rdFleet_Military",
            250i32 => "SalarianColonySupport_Modifier",
            11i32 => "TurianFlotilla_Military",
            12i32 => "Turian6thFleet_Military",
            243i32 => "CuredTurianGeneral_Modifier",
            42i32 => "Turian43rdMarineDivision_Military",
            43i32 => "Turian7thFleet_Military",
            191i32 => "TurianMedigel_Modifier",
            218i32 => "ProKroganInterviewNeedTurians_Modifier",
            253i32 => "Bannerofthe1stRegimentBonus_Modifier",
            44i32 => "TurianBlackwatch1_Military",
            45i32 => "TurianEngineeringCorp_Military",
            100i32 => "TurianSpecOpsTeam_Military",
            82i32 => "AdmiralDaroXen_Military",
            158i32 => "KillXen_Modifier",
            175i32 => "KeepXenAlive_Modifier",
            101i32 => "AdmiralZaelKoris_Military",
            269i32 => "DestroyTheQuarians_Modifier",
            105i32 => "QuarianCivilianFleet_Military",
            154i32 => "AdmiralDies_Modifier",
            223i32 => "QuarianInterviewReadiness_Modifier",
            106i32 => "QuarianHeavyFleet_Military",
            156i32 => "SupportRaanAgainstHanJorel_Modifier",
            157i32 => "SupportHanJorelAgainstRaan_Modifier",
            224i32 => "QuarianInterviewMilitary_Modifier",
            107i32 => "QuarianPatrolFleet_Military",
            260i32 => "ProtheanSphereBonus_Modifier",
            10i32 => "BannerOfThe1stRegiment_Artifact",
            13i32 => "FusionReactor_Salvage",
            14i32 => "DataCache_Salvage",
            15i32 => "FuelStorageDepot_Salvage",
            20i32 => "PillarsOfStrength_Artifact",
            21i32 => "ProcessingVIs_Salvage",
            22i32 => "BattleFootage_Intel",
            34i32 => "ProtheanObelisk_Artifact",
            35i32 => "WeaponsCache_Salvage",
            36i32 => "SecurityVI_Salvage",
            53i32 => "WeaponCache_Salvage",
            55i32 => "IntelligenceArchives_Intel",
            57i32 => "BookOfPlenix_Artifact",
            64i32 => "BattleofArcturusIntel_Intel",
            70i32 => "DestroyedMiniReaper_Intel",
            74i32 => "LifeSupportPods_Salvage",
            88i32 => "EngineParts_Salvage",
            89i32 => "LibraryOfAsha_Artifact",
            93i32 => "IntactReaperGun_Intel",
            95i32 => "ProtheanDataDrives_Artifact",
            98i32 => "FossilizedKaklisaur_Artifact",
            109i32 => "ProtheanSphere_Artifact",
            111i32 => "ObeliskOfKarza_Artifact",
            113i32 => "CodeOfTheAncients_Artifact",
            118i32 => "EezoTanker_Salvage",
            119i32 => "RingsOfAlune_Artifact",
            124i32 => "HesperiaPeriodStatue_Artifact",
            125i32 => "BioticResearchData_Intel",
            137i32 => "GeneralSherman_External",
            176i32 => "LegionIntel1_Intel",
            177i32 => "LegionIntel2_Intel",
            178i32 => "AdvancedBioticAmps_Intel",
            204i32 => "PrejekPaddlefish_Intel",
            214i32 => "FeronIntel_Intel",
            267i32 => "BlackMarketArtifacts_Quest",
            _ => "<Unknown>",
        }
    }
}

impl Default for WarAsset {
    /// The zero-valued tagged identifier: the asset domain's sentinel key.
    fn default() -> (r: Self)
        ensures
            r == WarAsset(0i32),
    {
        WarAsset(0)
    }
}

impl From<i32> for WarAsset {
    fn from(value: i32) -> (r: Self)
        ensures
            r == WarAsset(value),
    {
        WarAsset(value)
    }
}

impl vstd::std_specs::convert::FromSpecImpl<i32> for WarAsset {
    open spec fn obeys_from_spec() -> bool {
        true
    }

    open spec fn from_spec(v: i32) -> Self {
        WarAsset(v)
    }
}

impl From<WarAsset> for i32 {
    fn from(value: WarAsset) -> (r: Self)
        ensures
            r == value.0,
    {
        value.0
    }
}

impl vstd::std_specs::convert::FromSpecImpl<WarAsset> for i32 {
    open spec fn obeys_from_spec() -> bool {
        true
    }

    open spec fn from_spec(v: WarAsset) -> Self {
        v.0
    }
}

} // verus!
