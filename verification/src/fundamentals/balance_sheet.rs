use vstd::prelude::*;

use super::AsStr;

verus! {

/// A line item of a balance sheet.
///
/// The name under which the service knows an item is the name of its variant.
#[derive(Debug, Clone, Copy, PartialEq, Eq, PartialOrd, Ord, Hash)]
pub enum BalanceSheetFact {
    TreasurySharesNumber,
    PreferredSharesNumber,
    OrdinarySharesNumber,
    ShareIssued,
    NetDebt,
    TotalDebt,
    TangibleBookValue,
    InvestedCapital,
    WorkingCapital,
    NetTangibleAssets,
    CapitalLeaseObligations,
    CommonStockEquity,
    PreferredStockEquity,
    TotalCapitalization,
    TotalEquityGrossMinorityInterest,
    MinorityInterest,
    StockholdersEquity,
    OtherEquityInterest,
    GainsLossesNotAffectingRetainedEarnings,
    OtherEquityAdjustments,
    FixedAssetsRevaluationReserve,
    ForeignCurrencyTranslationAdjustments,
    MinimumPensionLiabilities,
    UnrealizedGainLoss,
    TreasuryStock,
    RetainedEarnings,
    AdditionalPaidInCapital,
    CapitalStock,
    OtherCapitalStock,
    CommonStock,
    PreferredStock,
    TotalPartnershipCapital,
    GeneralPartnershipCapital,
    LimitedPartnershipCapital,
    TotalLiabilitiesNetMinorityInterest,
    TotalNonCurrentLiabilitiesNetMinorityInterest,
    OtherNonCurrentLiabilities,
    LiabilitiesHeldforSaleNonCurrent,
    RestrictedCommonStock,
    PreferredSecuritiesOutsideStockEquity,
    DerivativeProductLiabilities,
    EmployeeBenefits,
    NonCurrentPensionAndOtherPostretirementBenefitPlans,
    NonCurrentAccruedExpenses,
    DuetoRelatedPartiesNonCurrent,
    TradeandOtherPayablesNonCurrent,
    NonCurrentDeferredLiabilities,
    NonCurrentDeferredRevenue,
    NonCurrentDeferredTaxesLiabilities,
    LongTermDebtAndCapitalLeaseObligation,
    LongTermCapitalLeaseObligation,
    LongTermDebt,
    LongTermProvisions,
    CurrentLiabilities,
    OtherCurrentLiabilities,
    CurrentDeferredLiabilities,
    CurrentDeferredRevenue,
    CurrentDeferredTaxesLiabilities,
    CurrentDebtAndCapitalLeaseObligation,
    CurrentCapitalLeaseObligation,
    CurrentDebt,
    OtherCurrentBorrowings,
    LineOfCredit,
    CommercialPaper,
    CurrentNotesPayable,
    PensionandOtherPostRetirementBenefitPlansCurrent,
    CurrentProvisions,
    PayablesAndAccruedExpenses,
    CurrentAccruedExpenses,
    InterestPayable,
    Payables,
    OtherPayable,
    DuetoRelatedPartiesCurrent,
    DividendsPayable,
    TotalTaxPayable,
    IncomeTaxPayable,
    AccountsPayable,
    TotalAssets,
    TotalNonCurrentAssets,
    OtherNonCurrentAssets,
    DefinedPensionBenefit,
    NonCurrentPrepaidAssets,
    NonCurrentDeferredAssets,
    NonCurrentDeferredTaxesAssets,
    DuefromRelatedPartiesNonCurrent,
    NonCurrentNoteReceivables,
    NonCurrentAccountsReceivable,
    FinancialAssets,
    InvestmentsAndAdvances,
    OtherInvestments,
    InvestmentinFinancialAssets,
    HeldToMaturitySecurities,
    AvailableForSaleSecurities,
    FinancialAssetsDesignatedasFairValueThroughProfitorLossTotal,
    TradingSecurities,
    LongTermEquityInvestment,
    InvestmentsinJointVenturesatCost,
    InvestmentsInOtherVenturesUnderEquityMethod,
    InvestmentsinAssociatesatCost,
    InvestmentsinSubsidiariesatCost,
    InvestmentProperties,
    GoodwillAndOtherIntangibleAssets,
    OtherIntangibleAssets,
    Goodwill,
    NetPPE,
    AccumulatedDepreciation,
    GrossPPE,
    Leases,
    ConstructionInProgress,
    OtherProperties,
    MachineryFurnitureEquipment,
    BuildingsAndImprovements,
    LandAndImprovements,
    Properties,
    CurrentAssets,
    OtherCurrentAssets,
    HedgingAssetsCurrent,
    AssetsHeldForSaleCurrent,
    CurrentDeferredAssets,
    CurrentDeferredTaxesAssets,
    RestrictedCash,
    PrepaidAssets,
    Inventory,
    InventoriesAdjustmentsAllowances,
    OtherInventories,
    FinishedGoods,
    WorkInProcess,
    RawMaterials,
    Receivables,
    ReceivablesAdjustmentsAllowances,
    OtherReceivables,
    DuefromRelatedPartiesCurrent,
    TaxesReceivable,
    AccruedInterestReceivable,
    NotesReceivable,
    LoansReceivable,
    AccountsReceivable,
    AllowanceForDoubtfulAccountsReceivable,
    GrossAccountsReceivable,
    CashCashEquivalentsAndShortTermInvestments,
    OtherShortTermInvestments,
    CashAndCashEquivalents,
    CashEquivalents,
    CashFinancial,
}

impl BalanceSheetFact {
    /// Number of balance sheet items.
    pub open spec fn count() -> nat {
        144
    }

    /// Place of the item in the order of declaration, counted from zero.
    pub open spec fn position(&self) -> nat {
        match self {
            Self::TreasurySharesNumber => 0,
            Self::PreferredSharesNumber => 1,
            Self::OrdinarySharesNumber => 2,
            Self::ShareIssued => 3,
            Self::NetDebt => 4,
            Self::TotalDebt => 5,
            Self::TangibleBookValue => 6,
            Self::InvestedCapital => 7,
            Self::WorkingCapital => 8,
            Self::NetTangibleAssets => 9,
            Self::CapitalLeaseObligations => 10,
            Self::CommonStockEquity => 11,
            Self::PreferredStockEquity => 12,
            Self::TotalCapitalization => 13,
            Self::TotalEquityGrossMinorityInterest => 14,
            Self::MinorityInterest => 15,
            Self::StockholdersEquity => 16,
            Self::OtherEquityInterest => 17,
            Self::GainsLossesNotAffectingRetainedEarnings => 18,
            Self::OtherEquityAdjustments => 19,
            Self::FixedAssetsRevaluationReserve => 20,
            Self::ForeignCurrencyTranslationAdjustments => 21,
            Self::MinimumPensionLiabilities => 22,
            Self::UnrealizedGainLoss => 23,
            Self::TreasuryStock => 24,
            Self::RetainedEarnings => 25,
            Self::AdditionalPaidInCapital => 26,
            Self::CapitalStock => 27,
            Self::OtherCapitalStock => 28,
            Self::CommonStock => 29,
            Self::PreferredStock => 30,
            Self::TotalPartnershipCapital => 31,
            Self::GeneralPartnershipCapital => 32,
            Self::LimitedPartnershipCapital => 33,
            Self::TotalLiabilitiesNetMinorityInterest => 34,
            Self::TotalNonCurrentLiabilitiesNetMinorityInterest => 35,
            Self::OtherNonCurrentLiabilities => 36,
            Self::LiabilitiesHeldforSaleNonCurrent => 37,
            Self::RestrictedCommonStock => 38,
            Self::PreferredSecuritiesOutsideStockEquity => 39,
            Self::DerivativeProductLiabilities => 40,
            Self::EmployeeBenefits => 41,
            Self::NonCurrentPensionAndOtherPostretirementBenefitPlans => 42,
            Self::NonCurrentAccruedExpenses => 43,
            Self::DuetoRelatedPartiesNonCurrent => 44,
            Self::TradeandOtherPayablesNonCurrent => 45,
            Self::NonCurrentDeferredLiabilities => 46,
            Self::NonCurrentDeferredRevenue => 47,
            Self::NonCurrentDeferredTaxesLiabilities => 48,
            Self::LongTermDebtAndCapitalLeaseObligation => 49,
            Self::LongTermCapitalLeaseObligation => 50,
            Self::LongTermDebt => 51,
            Self::LongTermProvisions => 52,
            Self::CurrentLiabilities => 53,
            Self::OtherCurrentLiabilities => 54,
            Self::CurrentDeferredLiabilities => 55,
            Self::CurrentDeferredRevenue => 56,
            Self::CurrentDeferredTaxesLiabilities => 57,
            Self::CurrentDebtAndCapitalLeaseObligation => 58,
            Self::CurrentCapitalLeaseObligation => 59,
            Self::CurrentDebt => 60,
            Self::OtherCurrentBorrowings => 61,
            Self::LineOfCredit => 62,
            Self::CommercialPaper => 63,
            Self::CurrentNotesPayable => 64,
            Self::PensionandOtherPostRetirementBenefitPlansCurrent => 65,
            Self::CurrentProvisions => 66,
            Self::PayablesAndAccruedExpenses => 67,
            Self::CurrentAccruedExpenses => 68,
            Self::InterestPayable => 69,
            Self::Payables => 70,
            Self::OtherPayable => 71,
            Self::DuetoRelatedPartiesCurrent => 72,
            Self::DividendsPayable => 73,
            Self::TotalTaxPayable => 74,
            Self::IncomeTaxPayable => 75,
            Self::AccountsPayable => 76,
            Self::TotalAssets => 77,
            Self::TotalNonCurrentAssets => 78,
            Self::OtherNonCurrentAssets => 79,
            Self::DefinedPensionBenefit => 80,
            Self::NonCurrentPrepaidAssets => 81,
            Self::NonCurrentDeferredAssets => 82,
            Self::NonCurrentDeferredTaxesAssets => 83,
            Self::DuefromRelatedPartiesNonCurrent => 84,
            Self::NonCurrentNoteReceivables => 85,
            Self::NonCurrentAccountsReceivable => 86,
            Self::FinancialAssets => 87,
            Self::InvestmentsAndAdvances => 88,
            Self::OtherInvestments => 89,
            Self::InvestmentinFinancialAssets => 90,
            Self::HeldToMaturitySecurities => 91,
            Self::AvailableForSaleSecurities => 92,
            Self::FinancialAssetsDesignatedasFairValueThroughProfitorLossTotal => 93,
            Self::TradingSecurities => 94,
            Self::LongTermEquityInvestment => 95,
            Self::InvestmentsinJointVenturesatCost => 96,
            Self::InvestmentsInOtherVenturesUnderEquityMethod => 97,
            Self::InvestmentsinAssociatesatCost => 98,
            Self::InvestmentsinSubsidiariesatCost => 99,
            Self::InvestmentProperties => 100,
            Self::GoodwillAndOtherIntangibleAssets => 101,
            Self::OtherIntangibleAssets => 102,
            Self::Goodwill => 103,
            Self::NetPPE => 104,
            Self::AccumulatedDepreciation => 105,
            Self::GrossPPE => 106,
            Self::Leases => 107,
            Self::ConstructionInProgress => 108,
            Self::OtherProperties => 109,
            Self::MachineryFurnitureEquipment => 110,
            Self::BuildingsAndImprovements => 111,
            Self::LandAndImprovements => 112,
            Self::Properties => 113,
            Self::CurrentAssets => 114,
            Self::OtherCurrentAssets => 115,
            Self::HedgingAssetsCurrent => 116,
            Self::AssetsHeldForSaleCurrent => 117,
            Self::CurrentDeferredAssets => 118,
            Self::CurrentDeferredTaxesAssets => 119,
            Self::RestrictedCash => 120,
            Self::PrepaidAssets => 121,
            Self::Inventory => 122,
            Self::InventoriesAdjustmentsAllowances => 123,
            Self::OtherInventories => 124,
            Self::FinishedGoods => 125,
            Self::WorkInProcess => 126,
            Self::RawMaterials => 127,
            Self::Receivables => 128,
            Self::ReceivablesAdjustmentsAllowances => 129,
            Self::OtherReceivables => 130,
            Self::DuefromRelatedPartiesCurrent => 131,
            Self::TaxesReceivable => 132,
            Self::AccruedInterestReceivable => 133,
            Self::NotesReceivable => 134,
            Self::LoansReceivable => 135,
            Self::AccountsReceivable => 136,
            Self::AllowanceForDoubtfulAccountsReceivable => 137,
            Self::GrossAccountsReceivable => 138,
            Self::CashCashEquivalentsAndShortTermInvestments => 139,
            Self::OtherShortTermInvestments => 140,
            Self::CashAndCashEquivalents => 141,
            Self::CashEquivalents => 142,
            Self::CashFinancial => 143,
        }
    }

    /// Name of the item as the service spells it.
    pub open spec fn name(&self) -> Seq<char> {
        match self {
            Self::TreasurySharesNumber => "TreasurySharesNumber"@,
            Self::PreferredSharesNumber => "PreferredSharesNumber"@,
            Self::OrdinarySharesNumber => "OrdinarySharesNumber"@,
            Self::ShareIssued => "ShareIssued"@,
            Self::NetDebt => "NetDebt"@,
            Self::TotalDebt => "TotalDebt"@,
            Self::TangibleBookValue => "TangibleBookValue"@,
            Self::InvestedCapital => "InvestedCapital"@,
            Self::WorkingCapital => "WorkingCapital"@,
            Self::NetTangibleAssets => "NetTangibleAssets"@,
            Self::CapitalLeaseObligations => "CapitalLeaseObligations"@,
            Self::CommonStockEquity => "CommonStockEquity"@,
            Self::PreferredStockEquity => "PreferredStockEquity"@,
            Self::TotalCapitalization => "TotalCapitalization"@,
            Self::TotalEquityGrossMinorityInterest => "TotalEquityGrossMinorityInterest"@,
            Self::MinorityInterest => "MinorityInterest"@,
            Self::StockholdersEquity => "StockholdersEquity"@,
            Self::OtherEquityInterest => "OtherEquityInterest"@,
            Self::GainsLossesNotAffectingRetainedEarnings => "GainsLossesNotAffectingRetainedEarnings"@,
            Self::OtherEquityAdjustments => "OtherEquityAdjustments"@,
            Self::FixedAssetsRevaluationReserve => "FixedAssetsRevaluationReserve"@,
            Self::ForeignCurrencyTranslationAdjustments => "ForeignCurrencyTranslationAdjustments"@,
            Self::MinimumPensionLiabilities => "MinimumPensionLiabilities"@,
            Self::UnrealizedGainLoss => "UnrealizedGainLoss"@,
            Self::TreasuryStock => "TreasuryStock"@,
            Self::RetainedEarnings => "RetainedEarnings"@,
            Self::AdditionalPaidInCapital => "AdditionalPaidInCapital"@,
            Self::CapitalStock => "CapitalStock"@,
            Self::OtherCapitalStock => "OtherCapitalStock"@,
            Self::CommonStock => "CommonStock"@,
            Self::PreferredStock => "PreferredStock"@,
            Self::TotalPartnershipCapital => "TotalPartnershipCapital"@,
            Self::GeneralPartnershipCapital => "GeneralPartnershipCapital"@,
            Self::LimitedPartnershipCapital => "LimitedPartnershipCapital"@,
            Self::TotalLiabilitiesNetMinorityInterest => "TotalLiabilitiesNetMinorityInterest"@,
            Self::TotalNonCurrentLiabilitiesNetMinorityInterest => "TotalNonCurrentLiabilitiesNetMinorityInterest"@,
            Self::OtherNonCurrentLiabilities => "OtherNonCurrentLiabilities"@,
            Self::LiabilitiesHeldforSaleNonCurrent => "LiabilitiesHeldforSaleNonCurrent"@,
            Self::RestrictedCommonStock => "RestrictedCommonStock"@,
            Self::PreferredSecuritiesOutsideStockEquity => "PreferredSecuritiesOutsideStockEquity"@,
            Self::DerivativeProductLiabilities => "DerivativeProductLiabilities"@,
            Self::EmployeeBenefits => "EmployeeBenefits"@,
            Self::NonCurrentPensionAndOtherPostretirementBenefitPlans => "NonCurrentPensionAndOtherPostretirementBenefitPlans"@,
            Self::NonCurrentAccruedExpenses => "NonCurrentAccruedExpenses"@,
            Self::DuetoRelatedPartiesNonCurrent => "DuetoRelatedPartiesNonCurrent"@,
            Self::TradeandOtherPayablesNonCurrent => "TradeandOtherPayablesNonCurrent"@,
            Self::NonCurrentDeferredLiabilities => "NonCurrentDeferredLiabilities"@,
            Self::NonCurrentDeferredRevenue => "NonCurrentDeferredRevenue"@,
            Self::NonCurrentDeferredTaxesLiabilities => "NonCurrentDeferredTaxesLiabilities"@,
            Self::LongTermDebtAndCapitalLeaseObligation => "LongTermDebtAndCapitalLeaseObligation"@,
            Self::LongTermCapitalLeaseObligation => "LongTermCapitalLeaseObligation"@,
            Self::LongTermDebt => "LongTermDebt"@,
            Self::LongTermProvisions => "LongTermProvisions"@,
            Self::CurrentLiabilities => "CurrentLiabilities"@,
            Self::OtherCurrentLiabilities => "OtherCurrentLiabilities"@,
            Self::CurrentDeferredLiabilities => "CurrentDeferredLiabilities"@,
            Self::CurrentDeferredRevenue => "CurrentDeferredRevenue"@,
            Self::CurrentDeferredTaxesLiabilities => "CurrentDeferredTaxesLiabilities"@,
            Self::CurrentDebtAndCapitalLeaseObligation => "CurrentDebtAndCapitalLeaseObligation"@,
            Self::CurrentCapitalLeaseObligation => "CurrentCapitalLeaseObligation"@,
            Self::CurrentDebt => "CurrentDebt"@,
            Self::OtherCurrentBorrowings => "OtherCurrentBorrowings"@,
            Self::LineOfCredit => "LineOfCredit"@,
            Self::CommercialPaper => "CommercialPaper"@,
            Self::CurrentNotesPayable => "CurrentNotesPayable"@,
            Self::PensionandOtherPostRetirementBenefitPlansCurrent => "PensionandOtherPostRetirementBenefitPlansCurrent"@,
            Self::CurrentProvisions => "CurrentProvisions"@,
            Self::PayablesAndAccruedExpenses => "PayablesAndAccruedExpenses"@,
            Self::CurrentAccruedExpenses => "CurrentAccruedExpenses"@,
            Self::InterestPayable => "InterestPayable"@,
            Self::Payables => "Payables"@,
            Self::OtherPayable => "OtherPayable"@,
            Self::DuetoRelatedPartiesCurrent => "DuetoRelatedPartiesCurrent"@,
            Self::DividendsPayable => "DividendsPayable"@,
            Self::TotalTaxPayable => "TotalTaxPayable"@,
            Self::IncomeTaxPayable => "IncomeTaxPayable"@,
            Self::AccountsPayable => "AccountsPayable"@,
            Self::TotalAssets => "TotalAssets"@,
            Self::TotalNonCurrentAssets => "TotalNonCurrentAssets"@,
            Self::OtherNonCurrentAssets => "OtherNonCurrentAssets"@,
            Self::DefinedPensionBenefit => "DefinedPensionBenefit"@,
            Self::NonCurrentPrepaidAssets => "NonCurrentPrepaidAssets"@,
            Self::NonCurrentDeferredAssets => "NonCurrentDeferredAssets"@,
            Self::NonCurrentDeferredTaxesAssets => "NonCurrentDeferredTaxesAssets"@,
            Self::DuefromRelatedPartiesNonCurrent => "DuefromRelatedPartiesNonCurrent"@,
            Self::NonCurrentNoteReceivables => "NonCurrentNoteReceivables"@,
            Self::NonCurrentAccountsReceivable => "NonCurrentAccountsReceivable"@,
            Self::FinancialAssets => "FinancialAssets"@,
            Self::InvestmentsAndAdvances => "InvestmentsAndAdvances"@,
            Self::OtherInvestments => "OtherInvestments"@,
            Self::InvestmentinFinancialAssets => "InvestmentinFinancialAssets"@,
            Self::HeldToMaturitySecurities => "HeldToMaturitySecurities"@,
            Self::AvailableForSaleSecurities => "AvailableForSaleSecurities"@,
            Self::FinancialAssetsDesignatedasFairValueThroughProfitorLossTotal => "FinancialAssetsDesignatedasFairValueThroughProfitorLossTotal"@,
            Self::TradingSecurities => "TradingSecurities"@,
            Self::LongTermEquityInvestment => "LongTermEquityInvestment"@,
            Self::InvestmentsinJointVenturesatCost => "InvestmentsinJointVenturesatCost"@,
            Self::InvestmentsInOtherVenturesUnderEquityMethod => "InvestmentsInOtherVenturesUnderEquityMethod"@,
            Self::InvestmentsinAssociatesatCost => "InvestmentsinAssociatesatCost"@,
            Self::InvestmentsinSubsidiariesatCost => "InvestmentsinSubsidiariesatCost"@,
            Self::InvestmentProperties => "InvestmentProperties"@,
            Self::GoodwillAndOtherIntangibleAssets => "GoodwillAndOtherIntangibleAssets"@,
            Self::OtherIntangibleAssets => "OtherIntangibleAssets"@,
            Self::Goodwill => "Goodwill"@,
            Self::NetPPE => "NetPPE"@,
            Self::AccumulatedDepreciation => "AccumulatedDepreciation"@,
            Self::GrossPPE => "GrossPPE"@,
            Self::Leases => "Leases"@,
            Self::ConstructionInProgress => "ConstructionInProgress"@,
            Self::OtherProperties => "OtherProperties"@,
            Self::MachineryFurnitureEquipment => "MachineryFurnitureEquipment"@,
            Self::BuildingsAndImprovements => "BuildingsAndImprovements"@,
            Self::LandAndImprovements => "LandAndImprovements"@,
            Self::Properties => "Properties"@,
            Self::CurrentAssets => "CurrentAssets"@,
            Self::OtherCurrentAssets => "OtherCurrentAssets"@,
            Self::HedgingAssetsCurrent => "HedgingAssetsCurrent"@,
            Self::AssetsHeldForSaleCurrent => "AssetsHeldForSaleCurrent"@,
            Self::CurrentDeferredAssets => "CurrentDeferredAssets"@,
            Self::CurrentDeferredTaxesAssets => "CurrentDeferredTaxesAssets"@,
            Self::RestrictedCash => "RestrictedCash"@,
            Self::PrepaidAssets => "PrepaidAssets"@,
            Self::Inventory => "Inventory"@,
            Self::InventoriesAdjustmentsAllowances => "InventoriesAdjustmentsAllowances"@,
            Self::OtherInventories => "OtherInventories"@,
            Self::FinishedGoods => "FinishedGoods"@,
            Self::WorkInProcess => "WorkInProcess"@,
            Self::RawMaterials => "RawMaterials"@,
            Self::Receivables => "Receivables"@,
            Self::ReceivablesAdjustmentsAllowances => "ReceivablesAdjustmentsAllowances"@,
            Self::OtherReceivables => "OtherReceivables"@,
            Self::DuefromRelatedPartiesCurrent => "DuefromRelatedPartiesCurrent"@,
            Self::TaxesReceivable => "TaxesReceivable"@,
            Self::AccruedInterestReceivable => "AccruedInterestReceivable"@,
            Self::NotesReceivable => "NotesReceivable"@,
            Self::LoansReceivable => "LoansReceivable"@,
            Self::AccountsReceivable => "AccountsReceivable"@,
            Self::AllowanceForDoubtfulAccountsReceivable => "AllowanceForDoubtfulAccountsReceivable"@,
            Self::GrossAccountsReceivable => "GrossAccountsReceivable"@,
            Self::CashCashEquivalentsAndShortTermInvestments => "CashCashEquivalentsAndShortTermInvestments"@,
            Self::OtherShortTermInvestments => "OtherShortTermInvestments"@,
            Self::CashAndCashEquivalents => "CashAndCashEquivalents"@,
            Self::CashEquivalents => "CashEquivalents"@,
            Self::CashFinancial => "CashFinancial"@,
        }
    }

    /// Every balance sheet item, once each, in the order of declaration.
    pub fn all() -> (facts: &'static [Self])
        ensures
            facts@.len() == Self::count(),
            forall|i: int| 0 <= i < facts@.len() ==> (#[trigger] facts@[i]).position() == i,
            forall|fact: Self| #[trigger] facts@[fact.position() as int] == fact,
    {
        &[
            Self::TreasurySharesNumber,
            Self::PreferredSharesNumber,
            Self::OrdinarySharesNumber,
            Self::ShareIssued,
            Self::NetDebt,
            Self::TotalDebt,
            Self::TangibleBookValue,
            Self::InvestedCapital,
            Self::WorkingCapital,
            Self::NetTangibleAssets,
            Self::CapitalLeaseObligations,
            Self::CommonStockEquity,
            Self::PreferredStockEquity,
            Self::TotalCapitalization,
            Self::TotalEquityGrossMinorityInterest,
            Self::MinorityInterest,
            Self::StockholdersEquity,
            Self::OtherEquityInterest,
            Self::GainsLossesNotAffectingRetainedEarnings,
            Self::OtherEquityAdjustments,
            Self::FixedAssetsRevaluationReserve,
            Self::ForeignCurrencyTranslationAdjustments,
            Self::MinimumPensionLiabilities,
            Self::UnrealizedGainLoss,
            Self::TreasuryStock,
            Self::RetainedEarnings,
            Self::AdditionalPaidInCapital,
            Self::CapitalStock,
            Self::OtherCapitalStock,
            Self::CommonStock,
            Self::PreferredStock,
            Self::TotalPartnershipCapital,
            Self::GeneralPartnershipCapital,
            Self::LimitedPartnershipCapital,
            Self::TotalLiabilitiesNetMinorityInterest,
            Self::TotalNonCurrentLiabilitiesNetMinorityInterest,
            Self::OtherNonCurrentLiabilities,
            Self::LiabilitiesHeldforSaleNonCurrent,
            Self::RestrictedCommonStock,
            Self::PreferredSecuritiesOutsideStockEquity,
            Self::DerivativeProductLiabilities,
            Self::EmployeeBenefits,
            Self::NonCurrentPensionAndOtherPostretirementBenefitPlans,
            Self::NonCurrentAccruedExpenses,
            Self::DuetoRelatedPartiesNonCurrent,
            Self::TradeandOtherPayablesNonCurrent,
            Self::NonCurrentDeferredLiabilities,
            Self::NonCurrentDeferredRevenue,
            Self::NonCurrentDeferredTaxesLiabilities,
            Self::LongTermDebtAndCapitalLeaseObligation,
            Self::LongTermCapitalLeaseObligation,
            Self::LongTermDebt,
            Self::LongTermProvisions,
            Self::CurrentLiabilities,
            Self::OtherCurrentLiabilities,
            Self::CurrentDeferredLiabilities,
            Self::CurrentDeferredRevenue,
            Self::CurrentDeferredTaxesLiabilities,
            Self::CurrentDebtAndCapitalLeaseObligation,
            Self::CurrentCapitalLeaseObligation,
            Self::CurrentDebt,
            Self::OtherCurrentBorrowings,
            Self::LineOfCredit,
            Self::CommercialPaper,
            Self::CurrentNotesPayable,
            Self::PensionandOtherPostRetirementBenefitPlansCurrent,
            Self::CurrentProvisions,
            Self::PayablesAndAccruedExpenses,
            Self::CurrentAccruedExpenses,
            Self::InterestPayable,
            Self::Payables,
            Self::OtherPayable,
            Self::DuetoRelatedPartiesCurrent,
            Self::DividendsPayable,
            Self::TotalTaxPayable,
            Self::IncomeTaxPayable,
            Self::AccountsPayable,
            Self::TotalAssets,
            Self::TotalNonCurrentAssets,
            Self::OtherNonCurrentAssets,
            Self::DefinedPensionBenefit,
            Self::NonCurrentPrepaidAssets,
            Self::NonCurrentDeferredAssets,
            Self::NonCurrentDeferredTaxesAssets,
            Self::DuefromRelatedPartiesNonCurrent,
            Self::NonCurrentNoteReceivables,
            Self::NonCurrentAccountsReceivable,
            Self::FinancialAssets,
            Self::InvestmentsAndAdvances,
            Self::OtherInvestments,
            Self::InvestmentinFinancialAssets,
            Self::HeldToMaturitySecurities,
            Self::AvailableForSaleSecurities,
            Self::FinancialAssetsDesignatedasFairValueThroughProfitorLossTotal,
            Self::TradingSecurities,
            Self::LongTermEquityInvestment,
            Self::InvestmentsinJointVenturesatCost,
            Self::InvestmentsInOtherVenturesUnderEquityMethod,
            Self::InvestmentsinAssociatesatCost,
            Self::InvestmentsinSubsidiariesatCost,
            Self::InvestmentProperties,
            Self::GoodwillAndOtherIntangibleAssets,
            Self::OtherIntangibleAssets,
            Self::Goodwill,
            Self::NetPPE,
            Self::AccumulatedDepreciation,
            Self::GrossPPE,
            Self::Leases,
            Self::ConstructionInProgress,
            Self::OtherProperties,
            Self::MachineryFurnitureEquipment,
            Self::BuildingsAndImprovements,
            Self::LandAndImprovements,
            Self::Properties,
            Self::CurrentAssets,
            Self::OtherCurrentAssets,
            Self::HedgingAssetsCurrent,
            Self::AssetsHeldForSaleCurrent,
            Self::CurrentDeferredAssets,
            Self::CurrentDeferredTaxesAssets,
            Self::RestrictedCash,
            Self::PrepaidAssets,
            Self::Inventory,
            Self::InventoriesAdjustmentsAllowances,
            Self::OtherInventories,
            Self::FinishedGoods,
            Self::WorkInProcess,
            Self::RawMaterials,
            Self::Receivables,
            Self::ReceivablesAdjustmentsAllowances,
            Self::OtherReceivables,
            Self::DuefromRelatedPartiesCurrent,
            Self::TaxesReceivable,
            Self::AccruedInterestReceivable,
            Self::NotesReceivable,
            Self::LoansReceivable,
            Self::AccountsReceivable,
            Self::AllowanceForDoubtfulAccountsReceivable,
            Self::GrossAccountsReceivable,
            Self::CashCashEquivalentsAndShortTermInvestments,
            Self::OtherShortTermInvestments,
            Self::CashAndCashEquivalents,
            Self::CashEquivalents,
            Self::CashFinancial,
        ]
    }
}

/// No two balance sheet items go by the same name: two names of one length
/// differ at one of a few places.
pub proof fn lemma_balance_sheet_names_differ(first: BalanceSheetFact, second: BalanceSheetFact)
    requires
        first.name() == second.name(),
    ensures
        first == second,
{
    reveal_strlit("TreasurySharesNumber");
    assert("TreasurySharesNumber"@.len() == 20
        && "TreasurySharesNumber"@[2] == 'e'
        && "TreasurySharesNumber"@[5] == 'u'
        && "TreasurySharesNumber"@[11] == 'r'
        && "TreasurySharesNumber"@[18] == 'e');
    reveal_strlit("PreferredSharesNumber");
    assert("PreferredSharesNumber"@.len() == 21
        && "PreferredSharesNumber"@[2] == 'e'
        && "PreferredSharesNumber"@[5] == 'r'
        && "PreferredSharesNumber"@[11] == 'a'
        && "PreferredSharesNumber"@[18] == 'b');
    reveal_strlit("OrdinarySharesNumber");
    assert("OrdinarySharesNumber"@.len() == 20
        && "OrdinarySharesNumber"@[2] == 'd'
        && "OrdinarySharesNumber"@[5] == 'a'
        && "OrdinarySharesNumber"@[11] == 'r'
        && "OrdinarySharesNumber"@[18] == 'e');
    reveal_strlit("ShareIssued");
    assert("ShareIssued"@.len() == 11
        && "ShareIssued"@[2] == 'a'
        && "ShareIssued"@[5] == 'I');
    reveal_strlit("NetDebt");
    assert("NetDebt"@.len() == 7
        && "NetDebt"@[2] == 't'
        && "NetDebt"@[5] == 'b');
    reveal_strlit("TotalDebt");
    assert("TotalDebt"@.len() == 9
        && "TotalDebt"@[2] == 't'
        && "TotalDebt"@[5] == 'D');
    reveal_strlit("TangibleBookValue");
    assert("TangibleBookValue"@.len() == 17
        && "TangibleBookValue"@[2] == 'n'
        && "TangibleBookValue"@[5] == 'b'
        && "TangibleBookValue"@[11] == 'k');
    reveal_strlit("InvestedCapital");
    assert("InvestedCapital"@.len() == 15
        && "InvestedCapital"@[2] == 'v'
        && "InvestedCapital"@[5] == 't'
        && "InvestedCapital"@[11] == 'i');
    reveal_strlit("WorkingCapital");
    assert("WorkingCapital"@.len() == 14
        && "WorkingCapital"@[2] == 'r'
        && "WorkingCapital"@[5] == 'n'
        && "WorkingCapital"@[11] == 't');
    reveal_strlit("NetTangibleAssets");
    assert("NetTangibleAssets"@.len() == 17
        && "NetTangibleAssets"@[2] == 't'
        && "NetTangibleAssets"@[5] == 'n'
        && "NetTangibleAssets"@[11] == 'A');
    reveal_strlit("CapitalLeaseObligations");
    assert("CapitalLeaseObligations"@.len() == 23
        && "CapitalLeaseObligations"@[2] == 'p'
        && "CapitalLeaseObligations"@[5] == 'a'
        && "CapitalLeaseObligations"@[11] == 'e'
        && "CapitalLeaseObligations"@[18] == 't');
    reveal_strlit("CommonStockEquity");
    assert("CommonStockEquity"@.len() == 17
        && "CommonStockEquity"@[2] == 'm'
        && "CommonStockEquity"@[5] == 'n'
        && "CommonStockEquity"@[11] == 'E');
    reveal_strlit("PreferredStockEquity");
    assert("PreferredStockEquity"@.len() == 20
        && "PreferredStockEquity"@[2] == 'e'
        && "PreferredStockEquity"@[5] == 'r'
        && "PreferredStockEquity"@[11] == 'o'
        && "PreferredStockEquity"@[18] == 't');
    reveal_strlit("TotalCapitalization");
    assert("TotalCapitalization"@.len() == 19
        && "TotalCapitalization"@[2] == 't'
        && "TotalCapitalization"@[5] == 'C'
        && "TotalCapitalization"@[11] == 'l'
        && "TotalCapitalization"@[18] == 'n');
    reveal_strlit("TotalEquityGrossMinorityInterest");
    assert("TotalEquityGrossMinorityInterest"@.len() == 32
        && "TotalEquityGrossMinorityInterest"@[2] == 't'
        && "TotalEquityGrossMinorityInterest"@[5] == 'E'
        && "TotalEquityGrossMinorityInterest"@[11] == 'G'
        && "TotalEquityGrossMinorityInterest"@[18] == 'n');
    reveal_strlit("MinorityInterest");
    assert("MinorityInterest"@.len() == 16
        && "MinorityInterest"@[2] == 'n'
        && "MinorityInterest"@[5] == 'i'
        && "MinorityInterest"@[11] == 'e');
    reveal_strlit("StockholdersEquity");
    assert("StockholdersEquity"@.len() == 18
        && "StockholdersEquity"@[2] == 'o'
        && "StockholdersEquity"@[5] == 'h'
        && "StockholdersEquity"@[11] == 's');
    reveal_strlit("OtherEquityInterest");
    assert("OtherEquityInterest"@.len() == 19
        && "OtherEquityInterest"@[2] == 'h'
        && "OtherEquityInterest"@[5] == 'E'
        && "OtherEquityInterest"@[11] == 'I'
        && "OtherEquityInterest"@[18] == 't');
    reveal_strlit("GainsLossesNotAffectingRetainedEarnings");
    assert("GainsLossesNotAffectingRetainedEarnings"@.len() == 39
        && "GainsLossesNotAffectingRetainedEarnings"@[2] == 'i'
        && "GainsLossesNotAffectingRetainedEarnings"@[5] == 'L'
        && "GainsLossesNotAffectingRetainedEarnings"@[11] == 'N'
        && "GainsLossesNotAffectingRetainedEarnings"@[18] == 'c');
    reveal_strlit("OtherEquityAdjustments");
    assert("OtherEquityAdjustments"@.len() == 22
        && "OtherEquityAdjustments"@[2] == 'h'
        && "OtherEquityAdjustments"@[5] == 'E'
        && "OtherEquityAdjustments"@[11] == 'A'
        && "OtherEquityAdjustments"@[18] == 'e');
    reveal_strlit("FixedAssetsRevaluationReserve");
    assert("FixedAssetsRevaluationReserve"@.len() == 29
        && "FixedAssetsRevaluationReserve"@[2] == 'x'
        && "FixedAssetsRevaluationReserve"@[5] == 'A'
        && "FixedAssetsRevaluationReserve"@[11] == 'R'
        && "FixedAssetsRevaluationReserve"@[18] == 't');
    reveal_strlit("ForeignCurrencyTranslationAdjustments");
    assert("ForeignCurrencyTranslationAdjustments"@.len() == 37
        && "ForeignCurrencyTranslationAdjustments"@[2] == 'r'
        && "ForeignCurrencyTranslationAdjustments"@[5] == 'g'
        && "ForeignCurrencyTranslationAdjustments"@[11] == 'e'
        && "ForeignCurrencyTranslationAdjustments"@[18] == 'n');
    reveal_strlit("MinimumPensionLiabilities");
    assert("MinimumPensionLiabilities"@.len() == 25
        && "MinimumPensionLiabilities"@[2] == 'n'
        && "MinimumPensionLiabilities"@[5] == 'u'
        && "MinimumPensionLiabilities"@[11] == 'i'
        && "MinimumPensionLiabilities"@[18] == 'i');
    reveal_strlit("UnrealizedGainLoss");
    assert("UnrealizedGainLoss"@.len() == 18
        && "UnrealizedGainLoss"@[2] == 'r'
        && "UnrealizedGainLoss"@[5] == 'l'
        && "UnrealizedGainLoss"@[11] == 'a');
    reveal_strlit("TreasuryStock");
    assert("TreasuryStock"@.len() == 13
        && "TreasuryStock"@[2] == 'e'
        && "TreasuryStock"@[5] == 'u'
        && "TreasuryStock"@[11] == 'c');
    reveal_strlit("RetainedEarnings");
    assert("RetainedEarnings"@.len() == 16
        && "RetainedEarnings"@[2] == 't'
        && "RetainedEarnings"@[5] == 'n'
        && "RetainedEarnings"@[11] == 'n');
    reveal_strlit("AdditionalPaidInCapital");
    assert("AdditionalPaidInCapital"@.len() == 23
        && "AdditionalPaidInCapital"@[2] == 'd'
        && "AdditionalPaidInCapital"@[5] == 'i'
        && "AdditionalPaidInCapital"@[11] == 'a'
        && "AdditionalPaidInCapital"@[18] == 'p');
    reveal_strlit("CapitalStock");
    assert("CapitalStock"@.len() == 12
        && "CapitalStock"@[2] == 'p'
        && "CapitalStock"@[5] == 'a'
        && "CapitalStock"@[11] == 'k');
    reveal_strlit("OtherCapitalStock");
    assert("OtherCapitalStock"@.len() == 17
        && "OtherCapitalStock"@[2] == 'h'
        && "OtherCapitalStock"@[5] == 'C'
        && "OtherCapitalStock"@[11] == 'l');
    reveal_strlit("CommonStock");
    assert("CommonStock"@.len() == 11
        && "CommonStock"@[2] == 'm'
        && "CommonStock"@[5] == 'n');
    reveal_strlit("PreferredStock");
    assert("PreferredStock"@.len() == 14
        && "PreferredStock"@[2] == 'e'
        && "PreferredStock"@[5] == 'r'
        && "PreferredStock"@[11] == 'o');
    reveal_strlit("TotalPartnershipCapital");
    assert("TotalPartnershipCapital"@.len() == 23
        && "TotalPartnershipCapital"@[2] == 't'
        && "TotalPartnershipCapital"@[5] == 'P'
        && "TotalPartnershipCapital"@[11] == 'r'
        && "TotalPartnershipCapital"@[18] == 'p');
    reveal_strlit("GeneralPartnershipCapital");
    assert("GeneralPartnershipCapital"@.len() == 25
        && "GeneralPartnershipCapital"@[2] == 'n'
        && "GeneralPartnershipCapital"@[5] == 'a'
        && "GeneralPartnershipCapital"@[11] == 'n'
        && "GeneralPartnershipCapital"@[18] == 'C');
    reveal_strlit("LimitedPartnershipCapital");
    assert("LimitedPartnershipCapital"@.len() == 25
        && "LimitedPartnershipCapital"@[2] == 'm'
        && "LimitedPartnershipCapital"@[5] == 'e'
        && "LimitedPartnershipCapital"@[11] == 'n'
        && "LimitedPartnershipCapital"@[18] == 'C');
    reveal_strlit("TotalLiabilitiesNetMinorityInterest");
    assert("TotalLiabilitiesNetMinorityInterest"@.len() == 35
        && "TotalLiabilitiesNetMinorityInterest"@[2] == 't'
        && "TotalLiabilitiesNetMinorityInterest"@[5] == 'L'
        && "TotalLiabilitiesNetMinorityInterest"@[11] == 'i'
        && "TotalLiabilitiesNetMinorityInterest"@[18] == 't');
    reveal_strlit("TotalNonCurrentLiabilitiesNetMinorityInterest");
    assert("TotalNonCurrentLiabilitiesNetMinorityInterest"@.len() == 45
        && "TotalNonCurrentLiabilitiesNetMinorityInterest"@[2] == 't'
        && "TotalNonCurrentLiabilitiesNetMinorityInterest"@[5] == 'N'
        && "TotalNonCurrentLiabilitiesNetMinorityInterest"@[11] == 'r'
        && "TotalNonCurrentLiabilitiesNetMinorityInterest"@[18] == 'b');
    reveal_strlit("OtherNonCurrentLiabilities");
    assert("OtherNonCurrentLiabilities"@.len() == 26
        && "OtherNonCurrentLiabilities"@[2] == 'h'
        && "OtherNonCurrentLiabilities"@[5] == 'N'
        && "OtherNonCurrentLiabilities"@[11] == 'r'
        && "OtherNonCurrentLiabilities"@[18] == 'b');
    reveal_strlit("LiabilitiesHeldforSaleNonCurrent");
    assert("LiabilitiesHeldforSaleNonCurrent"@.len() == 32
        && "LiabilitiesHeldforSaleNonCurrent"@[2] == 'a'
        && "LiabilitiesHeldforSaleNonCurrent"@[5] == 'l'
        && "LiabilitiesHeldforSaleNonCurrent"@[11] == 'H'
        && "LiabilitiesHeldforSaleNonCurrent"@[18] == 'S');
    reveal_strlit("RestrictedCommonStock");
    assert("RestrictedCommonStock"@.len() == 21
        && "RestrictedCommonStock"@[2] == 's'
        && "RestrictedCommonStock"@[5] == 'i'
        && "RestrictedCommonStock"@[11] == 'o'
        && "RestrictedCommonStock"@[18] == 'o');
    reveal_strlit("PreferredSecuritiesOutsideStockEquity");
    assert("PreferredSecuritiesOutsideStockEquity"@.len() == 37
        && "PreferredSecuritiesOutsideStockEquity"@[2] == 'e'
        && "PreferredSecuritiesOutsideStockEquity"@[5] == 'r'
        && "PreferredSecuritiesOutsideStockEquity"@[11] == 'c'
        && "PreferredSecuritiesOutsideStockEquity"@[18] == 's');
    reveal_strlit("DerivativeProductLiabilities");
    assert("DerivativeProductLiabilities"@.len() == 28
        && "DerivativeProductLiabilities"@[2] == 'r'
        && "DerivativeProductLiabilities"@[5] == 'a'
        && "DerivativeProductLiabilities"@[11] == 'r'
        && "DerivativeProductLiabilities"@[18] == 'i');
    reveal_strlit("EmployeeBenefits");
    assert("EmployeeBenefits"@.len() == 16
        && "EmployeeBenefits"@[2] == 'p'
        && "EmployeeBenefits"@[5] == 'y'
        && "EmployeeBenefits"@[11] == 'e');
    reveal_strlit("NonCurrentPensionAndOtherPostretirementBenefitPlans");
    assert("NonCurrentPensionAndOtherPostretirementBenefitPlans"@.len() == 51
        && "NonCurrentPensionAndOtherPostretirementBenefitPlans"@[2] == 'n'
        && "NonCurrentPensionAndOtherPostretirementBenefitPlans"@[5] == 'r'
        && "NonCurrentPensionAndOtherPostretirementBenefitPlans"@[11] == 'e'
        && "NonCurrentPensionAndOtherPostretirementBenefitPlans"@[18] == 'n');
    reveal_strlit("NonCurrentAccruedExpenses");
    assert("NonCurrentAccruedExpenses"@.len() == 25
        && "NonCurrentAccruedExpenses"@[2] == 'n'
        && "NonCurrentAccruedExpenses"@[5] == 'r'
        && "NonCurrentAccruedExpenses"@[11] == 'c'
        && "NonCurrentAccruedExpenses"@[18] == 'x');
    reveal_strlit("DuetoRelatedPartiesNonCurrent");
    assert("DuetoRelatedPartiesNonCurrent"@.len() == 29
        && "DuetoRelatedPartiesNonCurrent"@[2] == 'e'
        && "DuetoRelatedPartiesNonCurrent"@[5] == 'R'
        && "DuetoRelatedPartiesNonCurrent"@[11] == 'd'
        && "DuetoRelatedPartiesNonCurrent"@[18] == 's');
    reveal_strlit("TradeandOtherPayablesNonCurrent");
    assert("TradeandOtherPayablesNonCurrent"@.len() == 31
        && "TradeandOtherPayablesNonCurrent"@[2] == 'a'
        && "TradeandOtherPayablesNonCurrent"@[5] == 'a'
        && "TradeandOtherPayablesNonCurrent"@[11] == 'e'
        && "TradeandOtherPayablesNonCurrent"@[18] == 'l');
    reveal_strlit("NonCurrentDeferredLiabilities");
    assert("NonCurrentDeferredLiabilities"@.len() == 29
        && "NonCurrentDeferredLiabilities"@[2] == 'n'
        && "NonCurrentDeferredLiabilities"@[5] == 'r'
        && "NonCurrentDeferredLiabilities"@[11] == 'e'
        && "NonCurrentDeferredLiabilities"@[18] == 'L');
    reveal_strlit("NonCurrentDeferredRevenue");
    assert("NonCurrentDeferredRevenue"@.len() == 25
        && "NonCurrentDeferredRevenue"@[2] == 'n'
        && "NonCurrentDeferredRevenue"@[5] == 'r'
        && "NonCurrentDeferredRevenue"@[11] == 'e'
        && "NonCurrentDeferredRevenue"@[18] == 'R');
    reveal_strlit("NonCurrentDeferredTaxesLiabilities");
    assert("NonCurrentDeferredTaxesLiabilities"@.len() == 34
        && "NonCurrentDeferredTaxesLiabilities"@[2] == 'n'
        && "NonCurrentDeferredTaxesLiabilities"@[5] == 'r'
        && "NonCurrentDeferredTaxesLiabilities"@[11] == 'e'
        && "NonCurrentDeferredTaxesLiabilities"@[18] == 'T');
    reveal_strlit("LongTermDebtAndCapitalLeaseObligation");
    assert("LongTermDebtAndCapitalLeaseObligation"@.len() == 37
        && "LongTermDebtAndCapitalLeaseObligation"@[2] == 'n'
        && "LongTermDebtAndCapitalLeaseObligation"@[5] == 'e'
        && "LongTermDebtAndCapitalLeaseObligation"@[11] == 't'
        && "LongTermDebtAndCapitalLeaseObligation"@[18] == 'i');
    reveal_strlit("LongTermCapitalLeaseObligation");
    assert("LongTermCapitalLeaseObligation"@.len() == 30
        && "LongTermCapitalLeaseObligation"@[2] == 'n'
        && "LongTermCapitalLeaseObligation"@[5] == 'e'
        && "LongTermCapitalLeaseObligation"@[11] == 'i'
        && "LongTermCapitalLeaseObligation"@[18] == 's');
    reveal_strlit("LongTermDebt");
    assert("LongTermDebt"@.len() == 12
        && "LongTermDebt"@[2] == 'n'
        && "LongTermDebt"@[5] == 'e'
        && "LongTermDebt"@[11] == 't');
    reveal_strlit("LongTermProvisions");
    assert("LongTermProvisions"@.len() == 18
        && "LongTermProvisions"@[2] == 'n'
        && "LongTermProvisions"@[5] == 'e'
        && "LongTermProvisions"@[11] == 'v');
    reveal_strlit("CurrentLiabilities");
    assert("CurrentLiabilities"@.len() == 18
        && "CurrentLiabilities"@[2] == 'r'
        && "CurrentLiabilities"@[5] == 'n'
        && "CurrentLiabilities"@[11] == 'i');
    reveal_strlit("OtherCurrentLiabilities");
    assert("OtherCurrentLiabilities"@.len() == 23
        && "OtherCurrentLiabilities"@[2] == 'h'
        && "OtherCurrentLiabilities"@[5] == 'C'
        && "OtherCurrentLiabilities"@[11] == 't'
        && "OtherCurrentLiabilities"@[18] == 'i');
    reveal_strlit("CurrentDeferredLiabilities");
    assert("CurrentDeferredLiabilities"@.len() == 26
        && "CurrentDeferredLiabilities"@[2] == 'r'
        && "CurrentDeferredLiabilities"@[5] == 'n'
        && "CurrentDeferredLiabilities"@[11] == 'r'
        && "CurrentDeferredLiabilities"@[18] == 'b');
    reveal_strlit("CurrentDeferredRevenue");
    assert("CurrentDeferredRevenue"@.len() == 22
        && "CurrentDeferredRevenue"@[2] == 'r'
        && "CurrentDeferredRevenue"@[5] == 'n'
        && "CurrentDeferredRevenue"@[11] == 'r'
        && "CurrentDeferredRevenue"@[18] == 'e');
    reveal_strlit("CurrentDeferredTaxesLiabilities");
    assert("CurrentDeferredTaxesLiabilities"@.len() == 31
        && "CurrentDeferredTaxesLiabilities"@[2] == 'r'
        && "CurrentDeferredTaxesLiabilities"@[5] == 'n'
        && "CurrentDeferredTaxesLiabilities"@[11] == 'r'
        && "CurrentDeferredTaxesLiabilities"@[18] == 'e');
    reveal_strlit("CurrentDebtAndCapitalLeaseObligation");
    assert("CurrentDebtAndCapitalLeaseObligation"@.len() == 36
        && "CurrentDebtAndCapitalLeaseObligation"@[2] == 'r'
        && "CurrentDebtAndCapitalLeaseObligation"@[5] == 'n'
        && "CurrentDebtAndCapitalLeaseObligation"@[11] == 'A'
        && "CurrentDebtAndCapitalLeaseObligation"@[18] == 't');
    reveal_strlit("CurrentCapitalLeaseObligation");
    assert("CurrentCapitalLeaseObligation"@.len() == 29
        && "CurrentCapitalLeaseObligation"@[2] == 'r'
        && "CurrentCapitalLeaseObligation"@[5] == 'n'
        && "CurrentCapitalLeaseObligation"@[11] == 't'
        && "CurrentCapitalLeaseObligation"@[18] == 'e');
    reveal_strlit("CurrentDebt");
    assert("CurrentDebt"@.len() == 11
        && "CurrentDebt"@[2] == 'r'
        && "CurrentDebt"@[5] == 'n');
    reveal_strlit("OtherCurrentBorrowings");
    assert("OtherCurrentBorrowings"@.len() == 22
        && "OtherCurrentBorrowings"@[2] == 'h'
        && "OtherCurrentBorrowings"@[5] == 'C'
        && "OtherCurrentBorrowings"@[11] == 't'
        && "OtherCurrentBorrowings"@[18] == 'i');
    reveal_strlit("LineOfCredit");
    assert("LineOfCredit"@.len() == 12
        && "LineOfCredit"@[2] == 'n'
        && "LineOfCredit"@[5] == 'f'
        && "LineOfCredit"@[11] == 't');
    reveal_strlit("CommercialPaper");
    assert("CommercialPaper"@.len() == 15
        && "CommercialPaper"@[2] == 'm'
        && "CommercialPaper"@[5] == 'r'
        && "CommercialPaper"@[11] == 'a');
    reveal_strlit("CurrentNotesPayable");
    assert("CurrentNotesPayable"@.len() == 19
        && "CurrentNotesPayable"@[2] == 'r'
        && "CurrentNotesPayable"@[5] == 'n'
        && "CurrentNotesPayable"@[11] == 's'
        && "CurrentNotesPayable"@[18] == 'e');
    reveal_strlit("PensionandOtherPostRetirementBenefitPlansCurrent");
    assert("PensionandOtherPostRetirementBenefitPlansCurrent"@.len() == 48
        && "PensionandOtherPostRetirementBenefitPlansCurrent"@[2] == 'n'
        && "PensionandOtherPostRetirementBenefitPlansCurrent"@[5] == 'o'
        && "PensionandOtherPostRetirementBenefitPlansCurrent"@[11] == 't'
        && "PensionandOtherPostRetirementBenefitPlansCurrent"@[18] == 't');
    reveal_strlit("CurrentProvisions");
    assert("CurrentProvisions"@.len() == 17
        && "CurrentProvisions"@[2] == 'r'
        && "CurrentProvisions"@[5] == 'n'
        && "CurrentProvisions"@[11] == 'i');
    reveal_strlit("PayablesAndAccruedExpenses");
    assert("PayablesAndAccruedExpenses"@.len() == 26
        && "PayablesAndAccruedExpenses"@[2] == 'y'
        && "PayablesAndAccruedExpenses"@[5] == 'l'
        && "PayablesAndAccruedExpenses"@[11] == 'A'
        && "PayablesAndAccruedExpenses"@[18] == 'E');
    reveal_strlit("CurrentAccruedExpenses");
    assert("CurrentAccruedExpenses"@.len() == 22
        && "CurrentAccruedExpenses"@[2] == 'r'
        && "CurrentAccruedExpenses"@[5] == 'n'
        && "CurrentAccruedExpenses"@[11] == 'u'
        && "CurrentAccruedExpenses"@[18] == 'n');
    reveal_strlit("InterestPayable");
    assert("InterestPayable"@.len() == 15
        && "InterestPayable"@[2] == 't'
        && "InterestPayable"@[5] == 'e'
        && "InterestPayable"@[11] == 'a');
    reveal_strlit("Payables");
    assert("Payables"@.len() == 8
        && "Payables"@[2] == 'y'
        && "Payables"@[5] == 'l');
    reveal_strlit("OtherPayable");
    assert("OtherPayable"@.len() == 12
        && "OtherPayable"@[2] == 'h'
        && "OtherPayable"@[5] == 'P'
        && "OtherPayable"@[11] == 'e');
    reveal_strlit("DuetoRelatedPartiesCurrent");
    assert("DuetoRelatedPartiesCurrent"@.len() == 26
        && "DuetoRelatedPartiesCurrent"@[2] == 'e'
        && "DuetoRelatedPartiesCurrent"@[5] == 'R'
        && "DuetoRelatedPartiesCurrent"@[11] == 'd'
        && "DuetoRelatedPartiesCurrent"@[18] == 's');
    reveal_strlit("DividendsPayable");
    assert("DividendsPayable"@.len() == 16
        && "DividendsPayable"@[2] == 'v'
        && "DividendsPayable"@[5] == 'e'
        && "DividendsPayable"@[11] == 'y');
    reveal_strlit("TotalTaxPayable");
    assert("TotalTaxPayable"@.len() == 15
        && "TotalTaxPayable"@[2] == 't'
        && "TotalTaxPayable"@[5] == 'T'
        && "TotalTaxPayable"@[11] == 'a');
    reveal_strlit("IncomeTaxPayable");
    assert("IncomeTaxPayable"@.len() == 16
        && "IncomeTaxPayable"@[2] == 'c'
        && "IncomeTaxPayable"@[5] == 'e'
        && "IncomeTaxPayable"@[11] == 'y');
    reveal_strlit("AccountsPayable");
    assert("AccountsPayable"@.len() == 15
        && "AccountsPayable"@[2] == 'c'
        && "AccountsPayable"@[5] == 'n'
        && "AccountsPayable"@[11] == 'a');
    reveal_strlit("TotalAssets");
    assert("TotalAssets"@.len() == 11
        && "TotalAssets"@[2] == 't'
        && "TotalAssets"@[5] == 'A');
    reveal_strlit("TotalNonCurrentAssets");
    assert("TotalNonCurrentAssets"@.len() == 21
        && "TotalNonCurrentAssets"@[2] == 't'
        && "TotalNonCurrentAssets"@[5] == 'N'
        && "TotalNonCurrentAssets"@[11] == 'r'
        && "TotalNonCurrentAssets"@[18] == 'e');
    reveal_strlit("OtherNonCurrentAssets");
    assert("OtherNonCurrentAssets"@.len() == 21
        && "OtherNonCurrentAssets"@[2] == 'h'
        && "OtherNonCurrentAssets"@[5] == 'N'
        && "OtherNonCurrentAssets"@[11] == 'r'
        && "OtherNonCurrentAssets"@[18] == 'e');
    reveal_strlit("DefinedPensionBenefit");
    assert("DefinedPensionBenefit"@.len() == 21
        && "DefinedPensionBenefit"@[2] == 'f'
        && "DefinedPensionBenefit"@[5] == 'e'
        && "DefinedPensionBenefit"@[11] == 'i'
        && "DefinedPensionBenefit"@[18] == 'f');
    reveal_strlit("NonCurrentPrepaidAssets");
    assert("NonCurrentPrepaidAssets"@.len() == 23
        && "NonCurrentPrepaidAssets"@[2] == 'n'
        && "NonCurrentPrepaidAssets"@[5] == 'r'
        && "NonCurrentPrepaidAssets"@[11] == 'r'
        && "NonCurrentPrepaidAssets"@[18] == 's');
    reveal_strlit("NonCurrentDeferredAssets");
    assert("NonCurrentDeferredAssets"@.len() == 24
        && "NonCurrentDeferredAssets"@[2] == 'n'
        && "NonCurrentDeferredAssets"@[5] == 'r'
        && "NonCurrentDeferredAssets"@[11] == 'e'
        && "NonCurrentDeferredAssets"@[18] == 'A');
    reveal_strlit("NonCurrentDeferredTaxesAssets");
    assert("NonCurrentDeferredTaxesAssets"@.len() == 29
        && "NonCurrentDeferredTaxesAssets"@[2] == 'n'
        && "NonCurrentDeferredTaxesAssets"@[5] == 'r'
        && "NonCurrentDeferredTaxesAssets"@[11] == 'e'
        && "NonCurrentDeferredTaxesAssets"@[18] == 'T');
    reveal_strlit("DuefromRelatedPartiesNonCurrent");
    assert("DuefromRelatedPartiesNonCurrent"@.len() == 31
        && "DuefromRelatedPartiesNonCurrent"@[2] == 'e'
        && "DuefromRelatedPartiesNonCurrent"@[5] == 'o'
        && "DuefromRelatedPartiesNonCurrent"@[11] == 't'
        && "DuefromRelatedPartiesNonCurrent"@[18] == 'i');
    reveal_strlit("NonCurrentNoteReceivables");
    assert("NonCurrentNoteReceivables"@.len() == 25
        && "NonCurrentNoteReceivables"@[2] == 'n'
        && "NonCurrentNoteReceivables"@[5] == 'r'
        && "NonCurrentNoteReceivables"@[11] == 'o'
        && "NonCurrentNoteReceivables"@[18] == 'i');
    reveal_strlit("NonCurrentAccountsReceivable");
    assert("NonCurrentAccountsReceivable"@.len() == 28
        && "NonCurrentAccountsReceivable"@[2] == 'n'
        && "NonCurrentAccountsReceivable"@[5] == 'r'
        && "NonCurrentAccountsReceivable"@[11] == 'c'
        && "NonCurrentAccountsReceivable"@[18] == 'R');
    reveal_strlit("FinancialAssets");
    assert("FinancialAssets"@.len() == 15
        && "FinancialAssets"@[2] == 'n'
        && "FinancialAssets"@[5] == 'c'
        && "FinancialAssets"@[11] == 's');
    reveal_strlit("InvestmentsAndAdvances");
    assert("InvestmentsAndAdvances"@.len() == 22
        && "InvestmentsAndAdvances"@[2] == 'v'
        && "InvestmentsAndAdvances"@[5] == 't'
        && "InvestmentsAndAdvances"@[11] == 'A'
        && "InvestmentsAndAdvances"@[18] == 'n');
    reveal_strlit("OtherInvestments");
    assert("OtherInvestments"@.len() == 16
        && "OtherInvestments"@[2] == 'h'
        && "OtherInvestments"@[5] == 'I'
        && "OtherInvestments"@[11] == 'm');
    reveal_strlit("InvestmentinFinancialAssets");
    assert("InvestmentinFinancialAssets"@.len() == 27
        && "InvestmentinFinancialAssets"@[2] == 'v'
        && "InvestmentinFinancialAssets"@[5] == 't'
        && "InvestmentinFinancialAssets"@[11] == 'n'
        && "InvestmentinFinancialAssets"@[18] == 'i');
    reveal_strlit("HeldToMaturitySecurities");
    assert("HeldToMaturitySecurities"@.len() == 24
        && "HeldToMaturitySecurities"@[2] == 'l'
        && "HeldToMaturitySecurities"@[5] == 'o'
        && "HeldToMaturitySecurities"@[11] == 'i'
        && "HeldToMaturitySecurities"@[18] == 'r');
    reveal_strlit("AvailableForSaleSecurities");
    assert("AvailableForSaleSecurities"@.len() == 26
        && "AvailableForSaleSecurities"@[2] == 'a'
        && "AvailableForSaleSecurities"@[5] == 'a'
        && "AvailableForSaleSecurities"@[11] == 'r'
        && "AvailableForSaleSecurities"@[18] == 'c');
    reveal_strlit("FinancialAssetsDesignatedasFairValueThroughProfitorLossTotal");
    assert("FinancialAssetsDesignatedasFairValueThroughProfitorLossTotal"@.len() == 60
        && "FinancialAssetsDesignatedasFairValueThroughProfitorLossTotal"@[2] == 'n'
        && "FinancialAssetsDesignatedasFairValueThroughProfitorLossTotal"@[5] == 'c'
        && "FinancialAssetsDesignatedasFairValueThroughProfitorLossTotal"@[11] == 's'
        && "FinancialAssetsDesignatedasFairValueThroughProfitorLossTotal"@[18] == 'i');
    reveal_strlit("TradingSecurities");
    assert("TradingSecurities"@.len() == 17
        && "TradingSecurities"@[2] == 'a'
        && "TradingSecurities"@[5] == 'n'
        && "TradingSecurities"@[11] == 'r');
    reveal_strlit("LongTermEquityInvestment");
    assert("LongTermEquityInvestment"@.len() == 24
        && "LongTermEquityInvestment"@[2] == 'n'
        && "LongTermEquityInvestment"@[5] == 'e'
        && "LongTermEquityInvestment"@[11] == 'i'
        && "LongTermEquityInvestment"@[18] == 's');
    reveal_strlit("InvestmentsinJointVenturesatCost");
    assert("InvestmentsinJointVenturesatCost"@.len() == 32
        && "InvestmentsinJointVenturesatCost"@[2] == 'v'
        && "InvestmentsinJointVenturesatCost"@[5] == 't'
        && "InvestmentsinJointVenturesatCost"@[11] == 'i'
        && "InvestmentsinJointVenturesatCost"@[18] == 'V');
    reveal_strlit("InvestmentsInOtherVenturesUnderEquityMethod");
    assert("InvestmentsInOtherVenturesUnderEquityMethod"@.len() == 43
        && "InvestmentsInOtherVenturesUnderEquityMethod"@[2] == 'v'
        && "InvestmentsInOtherVenturesUnderEquityMethod"@[5] == 't'
        && "InvestmentsInOtherVenturesUnderEquityMethod"@[11] == 'I'
        && "InvestmentsInOtherVenturesUnderEquityMethod"@[18] == 'V');
    reveal_strlit("InvestmentsinAssociatesatCost");
    assert("InvestmentsinAssociatesatCost"@.len() == 29
        && "InvestmentsinAssociatesatCost"@[2] == 'v'
        && "InvestmentsinAssociatesatCost"@[5] == 't'
        && "InvestmentsinAssociatesatCost"@[11] == 'i'
        && "InvestmentsinAssociatesatCost"@[18] == 'i');
    reveal_strlit("InvestmentsinSubsidiariesatCost");
    assert("InvestmentsinSubsidiariesatCost"@.len() == 31
        && "InvestmentsinSubsidiariesatCost"@[2] == 'v'
        && "InvestmentsinSubsidiariesatCost"@[5] == 't'
        && "InvestmentsinSubsidiariesatCost"@[11] == 'i'
        && "InvestmentsinSubsidiariesatCost"@[18] == 'd');
    reveal_strlit("InvestmentProperties");
    assert("InvestmentProperties"@.len() == 20
        && "InvestmentProperties"@[2] == 'v'
        && "InvestmentProperties"@[5] == 't'
        && "InvestmentProperties"@[11] == 'r'
        && "InvestmentProperties"@[18] == 'e');
    reveal_strlit("GoodwillAndOtherIntangibleAssets");
    assert("GoodwillAndOtherIntangibleAssets"@.len() == 32
        && "GoodwillAndOtherIntangibleAssets"@[2] == 'o'
        && "GoodwillAndOtherIntangibleAssets"@[5] == 'i'
        && "GoodwillAndOtherIntangibleAssets"@[11] == 'O'
        && "GoodwillAndOtherIntangibleAssets"@[18] == 't');
    reveal_strlit("OtherIntangibleAssets");
    assert("OtherIntangibleAssets"@.len() == 21
        && "OtherIntangibleAssets"@[2] == 'h'
        && "OtherIntangibleAssets"@[5] == 'I'
        && "OtherIntangibleAssets"@[11] == 'i'
        && "OtherIntangibleAssets"@[18] == 'e');
    reveal_strlit("Goodwill");
    assert("Goodwill"@.len() == 8
        && "Goodwill"@[2] == 'o'
        && "Goodwill"@[5] == 'i');
    reveal_strlit("NetPPE");
    assert("NetPPE"@.len() == 6
        && "NetPPE"@[2] == 't'
        && "NetPPE"@[5] == 'E');
    reveal_strlit("AccumulatedDepreciation");
    assert("AccumulatedDepreciation"@.len() == 23
        && "AccumulatedDepreciation"@[2] == 'c'
        && "AccumulatedDepreciation"@[5] == 'u'
        && "AccumulatedDepreciation"@[11] == 'D'
        && "AccumulatedDepreciation"@[18] == 'a');
    reveal_strlit("GrossPPE");
    assert("GrossPPE"@.len() == 8
        && "GrossPPE"@[2] == 'o'
        && "GrossPPE"@[5] == 'P');
    reveal_strlit("Leases");
    assert("Leases"@.len() == 6
        && "Leases"@[2] == 'a'
        && "Leases"@[5] == 's');
    reveal_strlit("ConstructionInProgress");
    assert("ConstructionInProgress"@.len() == 22
        && "ConstructionInProgress"@[2] == 'n'
        && "ConstructionInProgress"@[5] == 'r'
        && "ConstructionInProgress"@[11] == 'n'
        && "ConstructionInProgress"@[18] == 'r');
    reveal_strlit("OtherProperties");
    assert("OtherProperties"@.len() == 15
        && "OtherProperties"@[2] == 'h'
        && "OtherProperties"@[5] == 'P'
        && "OtherProperties"@[11] == 't');
    reveal_strlit("MachineryFurnitureEquipment");
    assert("MachineryFurnitureEquipment"@.len() == 27
        && "MachineryFurnitureEquipment"@[2] == 'c'
        && "MachineryFurnitureEquipment"@[5] == 'n'
        && "MachineryFurnitureEquipment"@[11] == 'r'
        && "MachineryFurnitureEquipment"@[18] == 'E');
    reveal_strlit("BuildingsAndImprovements");
    assert("BuildingsAndImprovements"@.len() == 24
        && "BuildingsAndImprovements"@[2] == 'i'
        && "BuildingsAndImprovements"@[5] == 'i'
        && "BuildingsAndImprovements"@[11] == 'd'
        && "BuildingsAndImprovements"@[18] == 'e');
    reveal_strlit("LandAndImprovements");
    assert("LandAndImprovements"@.len() == 19
        && "LandAndImprovements"@[2] == 'n'
        && "LandAndImprovements"@[5] == 'n'
        && "LandAndImprovements"@[11] == 'o'
        && "LandAndImprovements"@[18] == 's');
    reveal_strlit("Properties");
    assert("Properties"@.len() == 10
        && "Properties"@[2] == 'o'
        && "Properties"@[5] == 'r');
    reveal_strlit("CurrentAssets");
    assert("CurrentAssets"@.len() == 13
        && "CurrentAssets"@[2] == 'r'
        && "CurrentAssets"@[5] == 'n'
        && "CurrentAssets"@[11] == 't');
    reveal_strlit("OtherCurrentAssets");
    assert("OtherCurrentAssets"@.len() == 18
        && "OtherCurrentAssets"@[2] == 'h'
        && "OtherCurrentAssets"@[5] == 'C'
        && "OtherCurrentAssets"@[11] == 't');
    reveal_strlit("HedgingAssetsCurrent");
    assert("HedgingAssetsCurrent"@.len() == 20
        && "HedgingAssetsCurrent"@[2] == 'd'
        && "HedgingAssetsCurrent"@[5] == 'n'
        && "HedgingAssetsCurrent"@[11] == 't'
        && "HedgingAssetsCurrent"@[18] == 'n');
    reveal_strlit("AssetsHeldForSaleCurrent");
    assert("AssetsHeldForSaleCurrent"@.len() == 24
        && "AssetsHeldForSaleCurrent"@[2] == 's'
        && "AssetsHeldForSaleCurrent"@[5] == 's'
        && "AssetsHeldForSaleCurrent"@[11] == 'o'
        && "AssetsHeldForSaleCurrent"@[18] == 'u');
    reveal_strlit("CurrentDeferredAssets");
    assert("CurrentDeferredAssets"@.len() == 21
        && "CurrentDeferredAssets"@[2] == 'r'
        && "CurrentDeferredAssets"@[5] == 'n'
        && "CurrentDeferredAssets"@[11] == 'r'
        && "CurrentDeferredAssets"@[18] == 'e');
    reveal_strlit("CurrentDeferredTaxesAssets");
    assert("CurrentDeferredTaxesAssets"@.len() == 26
        && "CurrentDeferredTaxesAssets"@[2] == 'r'
        && "CurrentDeferredTaxesAssets"@[5] == 'n'
        && "CurrentDeferredTaxesAssets"@[11] == 'r'
        && "CurrentDeferredTaxesAssets"@[18] == 'e');
    reveal_strlit("RestrictedCash");
    assert("RestrictedCash"@.len() == 14
        && "RestrictedCash"@[2] == 's'
        && "RestrictedCash"@[5] == 'i'
        && "RestrictedCash"@[11] == 'a');
    reveal_strlit("PrepaidAssets");
    assert("PrepaidAssets"@.len() == 13
        && "PrepaidAssets"@[2] == 'e'
        && "PrepaidAssets"@[5] == 'i'
        && "PrepaidAssets"@[11] == 't');
    reveal_strlit("Inventory");
    assert("Inventory"@.len() == 9
        && "Inventory"@[2] == 'v'
        && "Inventory"@[5] == 't');
    reveal_strlit("InventoriesAdjustmentsAllowances");
    assert("InventoriesAdjustmentsAllowances"@.len() == 32
        && "InventoriesAdjustmentsAllowances"@[2] == 'v'
        && "InventoriesAdjustmentsAllowances"@[5] == 't'
        && "InventoriesAdjustmentsAllowances"@[11] == 'A'
        && "InventoriesAdjustmentsAllowances"@[18] == 'e');
    reveal_strlit("OtherInventories");
    assert("OtherInventories"@.len() == 16
        && "OtherInventories"@[2] == 'h'
        && "OtherInventories"@[5] == 'I'
        && "OtherInventories"@[11] == 'o');
    reveal_strlit("FinishedGoods");
    assert("FinishedGoods"@.len() == 13
        && "FinishedGoods"@[2] == 'n'
        && "FinishedGoods"@[5] == 'h'
        && "FinishedGoods"@[11] == 'd');
    reveal_strlit("WorkInProcess");
    assert("WorkInProcess"@.len() == 13
        && "WorkInProcess"@[2] == 'r'
        && "WorkInProcess"@[5] == 'n'
        && "WorkInProcess"@[11] == 's');
    reveal_strlit("RawMaterials");
    assert("RawMaterials"@.len() == 12
        && "RawMaterials"@[2] == 'w'
        && "RawMaterials"@[5] == 't'
        && "RawMaterials"@[11] == 's');
    reveal_strlit("Receivables");
    assert("Receivables"@.len() == 11
        && "Receivables"@[2] == 'c'
        && "Receivables"@[5] == 'v');
    reveal_strlit("ReceivablesAdjustmentsAllowances");
    assert("ReceivablesAdjustmentsAllowances"@.len() == 32
        && "ReceivablesAdjustmentsAllowances"@[2] == 'c'
        && "ReceivablesAdjustmentsAllowances"@[5] == 'v'
        && "ReceivablesAdjustmentsAllowances"@[11] == 'A'
        && "ReceivablesAdjustmentsAllowances"@[18] == 'e');
    reveal_strlit("OtherReceivables");
    assert("OtherReceivables"@.len() == 16
        && "OtherReceivables"@[2] == 'h'
        && "OtherReceivables"@[5] == 'R'
        && "OtherReceivables"@[11] == 'a');
    reveal_strlit("DuefromRelatedPartiesCurrent");
    assert("DuefromRelatedPartiesCurrent"@.len() == 28
        && "DuefromRelatedPartiesCurrent"@[2] == 'e'
        && "DuefromRelatedPartiesCurrent"@[5] == 'o'
        && "DuefromRelatedPartiesCurrent"@[11] == 't'
        && "DuefromRelatedPartiesCurrent"@[18] == 'i');
    reveal_strlit("TaxesReceivable");
    assert("TaxesReceivable"@.len() == 15
        && "TaxesReceivable"@[2] == 'x'
        && "TaxesReceivable"@[5] == 'R'
        && "TaxesReceivable"@[11] == 'a');
    reveal_strlit("AccruedInterestReceivable");
    assert("AccruedInterestReceivable"@.len() == 25
        && "AccruedInterestReceivable"@[2] == 'c'
        && "AccruedInterestReceivable"@[5] == 'e'
        && "AccruedInterestReceivable"@[11] == 'r'
        && "AccruedInterestReceivable"@[18] == 'e');
    reveal_strlit("NotesReceivable");
    assert("NotesReceivable"@.len() == 15
        && "NotesReceivable"@[2] == 't'
        && "NotesReceivable"@[5] == 'R'
        && "NotesReceivable"@[11] == 'a');
    reveal_strlit("LoansReceivable");
    assert("LoansReceivable"@.len() == 15
        && "LoansReceivable"@[2] == 'a'
        && "LoansReceivable"@[5] == 'R'
        && "LoansReceivable"@[11] == 'a');
    reveal_strlit("AccountsReceivable");
    assert("AccountsReceivable"@.len() == 18
        && "AccountsReceivable"@[2] == 'c'
        && "AccountsReceivable"@[5] == 'n'
        && "AccountsReceivable"@[11] == 'e');
    reveal_strlit("AllowanceForDoubtfulAccountsReceivable");
    assert("AllowanceForDoubtfulAccountsReceivable"@.len() == 38
        && "AllowanceForDoubtfulAccountsReceivable"@[2] == 'l'
        && "AllowanceForDoubtfulAccountsReceivable"@[5] == 'a'
        && "AllowanceForDoubtfulAccountsReceivable"@[11] == 'r'
        && "AllowanceForDoubtfulAccountsReceivable"@[18] == 'u');
    reveal_strlit("GrossAccountsReceivable");
    assert("GrossAccountsReceivable"@.len() == 23
        && "GrossAccountsReceivable"@[2] == 'o'
        && "GrossAccountsReceivable"@[5] == 'A'
        && "GrossAccountsReceivable"@[11] == 't'
        && "GrossAccountsReceivable"@[18] == 'v');
    reveal_strlit("CashCashEquivalentsAndShortTermInvestments");
    assert("CashCashEquivalentsAndShortTermInvestments"@.len() == 42
        && "CashCashEquivalentsAndShortTermInvestments"@[2] == 's'
        && "CashCashEquivalentsAndShortTermInvestments"@[5] == 'a'
        && "CashCashEquivalentsAndShortTermInvestments"@[11] == 'i'
        && "CashCashEquivalentsAndShortTermInvestments"@[18] == 's');
    reveal_strlit("OtherShortTermInvestments");
    assert("OtherShortTermInvestments"@.len() == 25
        && "OtherShortTermInvestments"@[2] == 'h'
        && "OtherShortTermInvestments"@[5] == 'S'
        && "OtherShortTermInvestments"@[11] == 'e'
        && "OtherShortTermInvestments"@[18] == 's');
    reveal_strlit("CashAndCashEquivalents");
    assert("CashAndCashEquivalents"@.len() == 22
        && "CashAndCashEquivalents"@[2] == 's'
        && "CashAndCashEquivalents"@[5] == 'n'
        && "CashAndCashEquivalents"@[11] == 'E'
        && "CashAndCashEquivalents"@[18] == 'e');
    reveal_strlit("CashEquivalents");
    assert("CashEquivalents"@.len() == 15
        && "CashEquivalents"@[2] == 's'
        && "CashEquivalents"@[5] == 'q'
        && "CashEquivalents"@[11] == 'e');
    reveal_strlit("CashFinancial");
    assert("CashFinancial"@.len() == 13
        && "CashFinancial"@[2] == 's'
        && "CashFinancial"@[5] == 'i'
        && "CashFinancial"@[11] == 'a');
}

impl AsStr for BalanceSheetFact {
    open spec fn spec_str(&self) -> Seq<char> {
        self.name()
    }

    fn as_str(&self) -> (name: &str) {
        match self {
            Self::TreasurySharesNumber => "TreasurySharesNumber",
            Self::PreferredSharesNumber => "PreferredSharesNumber",
            Self::OrdinarySharesNumber => "OrdinarySharesNumber",
            Self::ShareIssued => "ShareIssued",
            Self::NetDebt => "NetDebt",
            Self::TotalDebt => "TotalDebt",
            Self::TangibleBookValue => "TangibleBookValue",
            Self::InvestedCapital => "InvestedCapital",
            Self::WorkingCapital => "WorkingCapital",
            Self::NetTangibleAssets => "NetTangibleAssets",
            Self::CapitalLeaseObligations => "CapitalLeaseObligations",
            Self::CommonStockEquity => "CommonStockEquity",
            Self::PreferredStockEquity => "PreferredStockEquity",
            Self::TotalCapitalization => "TotalCapitalization",
            Self::TotalEquityGrossMinorityInterest => "TotalEquityGrossMinorityInterest",
            Self::MinorityInterest => "MinorityInterest",
            Self::StockholdersEquity => "StockholdersEquity",
            Self::OtherEquityInterest => "OtherEquityInterest",
            Self::GainsLossesNotAffectingRetainedEarnings => "GainsLossesNotAffectingRetainedEarnings",
            Self::OtherEquityAdjustments => "OtherEquityAdjustments",
            Self::FixedAssetsRevaluationReserve => "FixedAssetsRevaluationReserve",
            Self::ForeignCurrencyTranslationAdjustments => "ForeignCurrencyTranslationAdjustments",
            Self::MinimumPensionLiabilities => "MinimumPensionLiabilities",
            Self::UnrealizedGainLoss => "UnrealizedGainLoss",
            Self::TreasuryStock => "TreasuryStock",
            Self::RetainedEarnings => "RetainedEarnings",
            Self::AdditionalPaidInCapital => "AdditionalPaidInCapital",
            Self::CapitalStock => "CapitalStock",
            Self::OtherCapitalStock => "OtherCapitalStock",
            Self::CommonStock => "CommonStock",
            Self::PreferredStock => "PreferredStock",
            Self::TotalPartnershipCapital => "TotalPartnershipCapital",
            Self::GeneralPartnershipCapital => "GeneralPartnershipCapital",
            Self::LimitedPartnershipCapital => "LimitedPartnershipCapital",
            Self::TotalLiabilitiesNetMinorityInterest => "TotalLiabilitiesNetMinorityInterest",
            Self::TotalNonCurrentLiabilitiesNetMinorityInterest => "TotalNonCurrentLiabilitiesNetMinorityInterest",
            Self::OtherNonCurrentLiabilities => "OtherNonCurrentLiabilities",
            Self::LiabilitiesHeldforSaleNonCurrent => "LiabilitiesHeldforSaleNonCurrent",
            Self::RestrictedCommonStock => "RestrictedCommonStock",
            Self::PreferredSecuritiesOutsideStockEquity => "PreferredSecuritiesOutsideStockEquity",
            Self::DerivativeProductLiabilities => "DerivativeProductLiabilities",
            Self::EmployeeBenefits => "EmployeeBenefits",
            Self::NonCurrentPensionAndOtherPostretirementBenefitPlans => "NonCurrentPensionAndOtherPostretirementBenefitPlans",
            Self::NonCurrentAccruedExpenses => "NonCurrentAccruedExpenses",
            Self::DuetoRelatedPartiesNonCurrent => "DuetoRelatedPartiesNonCurrent",
            Self::TradeandOtherPayablesNonCurrent => "TradeandOtherPayablesNonCurrent",
            Self::NonCurrentDeferredLiabilities => "NonCurrentDeferredLiabilities",
            Self::NonCurrentDeferredRevenue => "NonCurrentDeferredRevenue",
            Self::NonCurrentDeferredTaxesLiabilities => "NonCurrentDeferredTaxesLiabilities",
            Self::LongTermDebtAndCapitalLeaseObligation => "LongTermDebtAndCapitalLeaseObligation",
            Self::LongTermCapitalLeaseObligation => "LongTermCapitalLeaseObligation",
            Self::LongTermDebt => "LongTermDebt",
            Self::LongTermProvisions => "LongTermProvisions",
            Self::CurrentLiabilities => "CurrentLiabilities",
            Self::OtherCurrentLiabilities => "OtherCurrentLiabilities",
            Self::CurrentDeferredLiabilities => "CurrentDeferredLiabilities",
            Self::CurrentDeferredRevenue => "CurrentDeferredRevenue",
            Self::CurrentDeferredTaxesLiabilities => "CurrentDeferredTaxesLiabilities",
            Self::CurrentDebtAndCapitalLeaseObligation => "CurrentDebtAndCapitalLeaseObligation",
            Self::CurrentCapitalLeaseObligation => "CurrentCapitalLeaseObligation",
            Self::CurrentDebt => "CurrentDebt",
            Self::OtherCurrentBorrowings => "OtherCurrentBorrowings",
            Self::LineOfCredit => "LineOfCredit",
            Self::CommercialPaper => "CommercialPaper",
            Self::CurrentNotesPayable => "CurrentNotesPayable",
            Self::PensionandOtherPostRetirementBenefitPlansCurrent => "PensionandOtherPostRetirementBenefitPlansCurrent",
            Self::CurrentProvisions => "CurrentProvisions",
            Self::PayablesAndAccruedExpenses => "PayablesAndAccruedExpenses",
            Self::CurrentAccruedExpenses => "CurrentAccruedExpenses",
            Self::InterestPayable => "InterestPayable",
            Self::Payables => "Payables",
            Self::OtherPayable => "OtherPayable",
            Self::DuetoRelatedPartiesCurrent => "DuetoRelatedPartiesCurrent",
            Self::DividendsPayable => "DividendsPayable",
            Self::TotalTaxPayable => "TotalTaxPayable",
            Self::IncomeTaxPayable => "IncomeTaxPayable",
            Self::AccountsPayable => "AccountsPayable",
            Self::TotalAssets => "TotalAssets",
            Self::TotalNonCurrentAssets => "TotalNonCurrentAssets",
            Self::OtherNonCurrentAssets => "OtherNonCurrentAssets",
            Self::DefinedPensionBenefit => "DefinedPensionBenefit",
            Self::NonCurrentPrepaidAssets => "NonCurrentPrepaidAssets",
            Self::NonCurrentDeferredAssets => "NonCurrentDeferredAssets",
            Self::NonCurrentDeferredTaxesAssets => "NonCurrentDeferredTaxesAssets",
            Self::DuefromRelatedPartiesNonCurrent => "DuefromRelatedPartiesNonCurrent",
            Self::NonCurrentNoteReceivables => "NonCurrentNoteReceivables",
            Self::NonCurrentAccountsReceivable => "NonCurrentAccountsReceivable",
            Self::FinancialAssets => "FinancialAssets",
            Self::InvestmentsAndAdvances => "InvestmentsAndAdvances",
            Self::OtherInvestments => "OtherInvestments",
            Self::InvestmentinFinancialAssets => "InvestmentinFinancialAssets",
            Self::HeldToMaturitySecurities => "HeldToMaturitySecurities",
            Self::AvailableForSaleSecurities => "AvailableForSaleSecurities",
            Self::FinancialAssetsDesignatedasFairValueThroughProfitorLossTotal => "FinancialAssetsDesignatedasFairValueThroughProfitorLossTotal",
            Self::TradingSecurities => "TradingSecurities",
            Self::LongTermEquityInvestment => "LongTermEquityInvestment",
            Self::InvestmentsinJointVenturesatCost => "InvestmentsinJointVenturesatCost",
            Self::InvestmentsInOtherVenturesUnderEquityMethod => "InvestmentsInOtherVenturesUnderEquityMethod",
            Self::InvestmentsinAssociatesatCost => "InvestmentsinAssociatesatCost",
            Self::InvestmentsinSubsidiariesatCost => "InvestmentsinSubsidiariesatCost",
            Self::InvestmentProperties => "InvestmentProperties",
            Self::GoodwillAndOtherIntangibleAssets => "GoodwillAndOtherIntangibleAssets",
            Self::OtherIntangibleAssets => "OtherIntangibleAssets",
            Self::Goodwill => "Goodwill",
            Self::NetPPE => "NetPPE",
            Self::AccumulatedDepreciation => "AccumulatedDepreciation",
            Self::GrossPPE => "GrossPPE",
            Self::Leases => "Leases",
            Self::ConstructionInProgress => "ConstructionInProgress",
            Self::OtherProperties => "OtherProperties",
            Self::MachineryFurnitureEquipment => "MachineryFurnitureEquipment",
            Self::BuildingsAndImprovements => "BuildingsAndImprovements",
            Self::LandAndImprovements => "LandAndImprovements",
            Self::Properties => "Properties",
            Self::CurrentAssets => "CurrentAssets",
            Self::OtherCurrentAssets => "OtherCurrentAssets",
            Self::HedgingAssetsCurrent => "HedgingAssetsCurrent",
            Self::AssetsHeldForSaleCurrent => "AssetsHeldForSaleCurrent",
            Self::CurrentDeferredAssets => "CurrentDeferredAssets",
            Self::CurrentDeferredTaxesAssets => "CurrentDeferredTaxesAssets",
            Self::RestrictedCash => "RestrictedCash",
            Self::PrepaidAssets => "PrepaidAssets",
            Self::Inventory => "Inventory",
            Self::InventoriesAdjustmentsAllowances => "InventoriesAdjustmentsAllowances",
            Self::OtherInventories => "OtherInventories",
            Self::FinishedGoods => "FinishedGoods",
            Self::WorkInProcess => "WorkInProcess",
            Self::RawMaterials => "RawMaterials",
            Self::Receivables => "Receivables",
            Self::ReceivablesAdjustmentsAllowances => "ReceivablesAdjustmentsAllowances",
            Self::OtherReceivables => "OtherReceivables",
            Self::DuefromRelatedPartiesCurrent => "DuefromRelatedPartiesCurrent",
            Self::TaxesReceivable => "TaxesReceivable",
            Self::AccruedInterestReceivable => "AccruedInterestReceivable",
            Self::NotesReceivable => "NotesReceivable",
            Self::LoansReceivable => "LoansReceivable",
            Self::AccountsReceivable => "AccountsReceivable",
            Self::AllowanceForDoubtfulAccountsReceivable => "AllowanceForDoubtfulAccountsReceivable",
            Self::GrossAccountsReceivable => "GrossAccountsReceivable",
            Self::CashCashEquivalentsAndShortTermInvestments => "CashCashEquivalentsAndShortTermInvestments",
            Self::OtherShortTermInvestments => "OtherShortTermInvestments",
            Self::CashAndCashEquivalents => "CashAndCashEquivalents",
            Self::CashEquivalents => "CashEquivalents",
            Self::CashFinancial => "CashFinancial",
        }
    }
}

} // verus!
