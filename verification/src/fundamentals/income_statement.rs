use vstd::prelude::*;

use super::AsStr;

verus! {

/// A line item of an income statement.
///
/// The name under which the service knows an item is the name of its variant.
#[derive(Debug, Clone, Copy, PartialEq, Eq, PartialOrd, Ord, Hash)]
pub enum IncomeStatementFact {
    TaxEffectOfUnusualItems,
    TaxRateForCalcs,
    NormalizedEBITDA,
    NormalizedDilutedEPS,
    NormalizedBasicEPS,
    TotalUnusualItems,
    TotalUnusualItemsExcludingGoodwill,
    NetIncomeFromContinuingOperationNetMinorityInterest,
    ReconciledDepreciation,
    ReconciledCostOfRevenue,
    EBITDA,
    EBIT,
    NetInterestIncome,
    InterestExpense,
    InterestIncome,
    ContinuingAndDiscontinuedDilutedEPS,
    ContinuingAndDiscontinuedBasicEPS,
    NormalizedIncome,
    NetIncomeFromContinuingAndDiscontinuedOperation,
    TotalExpenses,
    RentExpenseSupplemental,
    ReportedNormalizedDilutedEPS,
    ReportedNormalizedBasicEPS,
    TotalOperatingIncomeAsReported,
    DividendPerShare,
    DilutedAverageShares,
    BasicAverageShares,
    DilutedEPS,
    DilutedEPSOtherGainsLosses,
    TaxLossCarryforwardDilutedEPS,
    DilutedAccountingChange,
    DilutedExtraordinary,
    DilutedDiscontinuousOperations,
    DilutedContinuousOperations,
    BasicEPS,
    BasicEPSOtherGainsLosses,
    TaxLossCarryforwardBasicEPS,
    BasicAccountingChange,
    BasicExtraordinary,
    BasicDiscontinuousOperations,
    BasicContinuousOperations,
    DilutedNIAvailtoComStockholders,
    AverageDilutionEarnings,
    NetIncomeCommonStockholders,
    OtherunderPreferredStockDividend,
    PreferredStockDividends,
    NetIncome,
    MinorityInterests,
    NetIncomeIncludingNoncontrollingInterests,
    NetIncomeFromTaxLossCarryforward,
    NetIncomeExtraordinary,
    NetIncomeDiscontinuousOperations,
    NetIncomeContinuousOperations,
    EarningsFromEquityInterestNetOfTax,
    TaxProvision,
    PretaxIncome,
    OtherIncomeExpense,
    OtherNonOperatingIncomeExpenses,
    SpecialIncomeCharges,
    GainOnSaleOfPPE,
    GainOnSaleOfBusiness,
    OtherSpecialCharges,
    WriteOff,
    ImpairmentOfCapitalAssets,
    RestructuringAndMergernAcquisition,
    SecuritiesAmortization,
    EarningsFromEquityInterest,
    GainOnSaleOfSecurity,
    NetNonOperatingInterestIncomeExpense,
    TotalOtherFinanceCost,
    InterestExpenseNonOperating,
    InterestIncomeNonOperating,
    OperatingIncome,
    OperatingExpense,
    OtherOperatingExpenses,
    OtherTaxes,
    ProvisionForDoubtfulAccounts,
    DepreciationAmortizationDepletionIncomeStatement,
    DepletionIncomeStatement,
    DepreciationAndAmortizationInIncomeStatement,
    Amortization,
    AmortizationOfIntangiblesIncomeStatement,
    DepreciationIncomeStatement,
    ResearchAndDevelopment,
    SellingGeneralAndAdministration,
    SellingAndMarketingExpense,
    GeneralAndAdministrativeExpense,
    OtherGandA,
    InsuranceAndClaims,
    RentAndLandingFees,
    SalariesAndWages,
    GrossProfit,
    CostOfRevenue,
    TotalRevenue,
    ExciseTaxes,
    OperatingRevenue,
}

impl IncomeStatementFact {
    /// Number of income statement items.
    pub open spec fn count() -> nat {
        96
    }

    /// Place of the item in the order of declaration, counted from zero.
    pub open spec fn position(&self) -> nat {
        match self {
            Self::TaxEffectOfUnusualItems => 0,
            Self::TaxRateForCalcs => 1,
            Self::NormalizedEBITDA => 2,
            Self::NormalizedDilutedEPS => 3,
            Self::NormalizedBasicEPS => 4,
            Self::TotalUnusualItems => 5,
            Self::TotalUnusualItemsExcludingGoodwill => 6,
            Self::NetIncomeFromContinuingOperationNetMinorityInterest => 7,
            Self::ReconciledDepreciation => 8,
            Self::ReconciledCostOfRevenue => 9,
            Self::EBITDA => 10,
            Self::EBIT => 11,
            Self::NetInterestIncome => 12,
            Self::InterestExpense => 13,
            Self::InterestIncome => 14,
            Self::ContinuingAndDiscontinuedDilutedEPS => 15,
            Self::ContinuingAndDiscontinuedBasicEPS => 16,
            Self::NormalizedIncome => 17,
            Self::NetIncomeFromContinuingAndDiscontinuedOperation => 18,
            Self::TotalExpenses => 19,
            Self::RentExpenseSupplemental => 20,
            Self::ReportedNormalizedDilutedEPS => 21,
            Self::ReportedNormalizedBasicEPS => 22,
            Self::TotalOperatingIncomeAsReported => 23,
            Self::DividendPerShare => 24,
            Self::DilutedAverageShares => 25,
            Self::BasicAverageShares => 26,
            Self::DilutedEPS => 27,
            Self::DilutedEPSOtherGainsLosses => 28,
            Self::TaxLossCarryforwardDilutedEPS => 29,
            Self::DilutedAccountingChange => 30,
            Self::DilutedExtraordinary => 31,
            Self::DilutedDiscontinuousOperations => 32,
            Self::DilutedContinuousOperations => 33,
            Self::BasicEPS => 34,
            Self::BasicEPSOtherGainsLosses => 35,
            Self::TaxLossCarryforwardBasicEPS => 36,
            Self::BasicAccountingChange => 37,
            Self::BasicExtraordinary => 38,
            Self::BasicDiscontinuousOperations => 39,
            Self::BasicContinuousOperations => 40,
            Self::DilutedNIAvailtoComStockholders => 41,
            Self::AverageDilutionEarnings => 42,
            Self::NetIncomeCommonStockholders => 43,
            Self::OtherunderPreferredStockDividend => 44,
            Self::PreferredStockDividends => 45,
            Self::NetIncome => 46,
            Self::MinorityInterests => 47,
            Self::NetIncomeIncludingNoncontrollingInterests => 48,
            Self::NetIncomeFromTaxLossCarryforward => 49,
            Self::NetIncomeExtraordinary => 50,
            Self::NetIncomeDiscontinuousOperations => 51,
            Self::NetIncomeContinuousOperations => 52,
            Self::EarningsFromEquityInterestNetOfTax => 53,
            Self::TaxProvision => 54,
            Self::PretaxIncome => 55,
            Self::OtherIncomeExpense => 56,
            Self::OtherNonOperatingIncomeExpenses => 57,
            Self::SpecialIncomeCharges => 58,
            Self::GainOnSaleOfPPE => 59,
            Self::GainOnSaleOfBusiness => 60,
            Self::OtherSpecialCharges => 61,
            Self::WriteOff => 62,
            Self::ImpairmentOfCapitalAssets => 63,
            Self::RestructuringAndMergernAcquisition => 64,
            Self::SecuritiesAmortization => 65,
            Self::EarningsFromEquityInterest => 66,
            Self::GainOnSaleOfSecurity => 67,
            Self::NetNonOperatingInterestIncomeExpense => 68,
            Self::TotalOtherFinanceCost => 69,
            Self::InterestExpenseNonOperating => 70,
            Self::InterestIncomeNonOperating => 71,
            Self::OperatingIncome => 72,
            Self::OperatingExpense => 73,
            Self::OtherOperatingExpenses => 74,
            Self::OtherTaxes => 75,
            Self::ProvisionForDoubtfulAccounts => 76,
            Self::DepreciationAmortizationDepletionIncomeStatement => 77,
            Self::DepletionIncomeStatement => 78,
            Self::DepreciationAndAmortizationInIncomeStatement => 79,
            Self::Amortization => 80,
            Self::AmortizationOfIntangiblesIncomeStatement => 81,
            Self::DepreciationIncomeStatement => 82,
            Self::ResearchAndDevelopment => 83,
            Self::SellingGeneralAndAdministration => 84,
            Self::SellingAndMarketingExpense => 85,
            Self::GeneralAndAdministrativeExpense => 86,
            Self::OtherGandA => 87,
            Self::InsuranceAndClaims => 88,
            Self::RentAndLandingFees => 89,
            Self::SalariesAndWages => 90,
            Self::GrossProfit => 91,
            Self::CostOfRevenue => 92,
            Self::TotalRevenue => 93,
            Self::ExciseTaxes => 94,
            Self::OperatingRevenue => 95,
        }
    }

    /// Name of the item as the service spells it.
    pub open spec fn name(&self) -> Seq<char> {
        match self {
            Self::TaxEffectOfUnusualItems => "TaxEffectOfUnusualItems"@,
            Self::TaxRateForCalcs => "TaxRateForCalcs"@,
            Self::NormalizedEBITDA => "NormalizedEBITDA"@,
            Self::NormalizedDilutedEPS => "NormalizedDilutedEPS"@,
            Self::NormalizedBasicEPS => "NormalizedBasicEPS"@,
            Self::TotalUnusualItems => "TotalUnusualItems"@,
            Self::TotalUnusualItemsExcludingGoodwill => "TotalUnusualItemsExcludingGoodwill"@,
            Self::NetIncomeFromContinuingOperationNetMinorityInterest => "NetIncomeFromContinuingOperationNetMinorityInterest"@,
            Self::ReconciledDepreciation => "ReconciledDepreciation"@,
            Self::ReconciledCostOfRevenue => "ReconciledCostOfRevenue"@,
            Self::EBITDA => "EBITDA"@,
            Self::EBIT => "EBIT"@,
            Self::NetInterestIncome => "NetInterestIncome"@,
            Self::InterestExpense => "InterestExpense"@,
            Self::InterestIncome => "InterestIncome"@,
            Self::ContinuingAndDiscontinuedDilutedEPS => "ContinuingAndDiscontinuedDilutedEPS"@,
            Self::ContinuingAndDiscontinuedBasicEPS => "ContinuingAndDiscontinuedBasicEPS"@,
            Self::NormalizedIncome => "NormalizedIncome"@,
            Self::NetIncomeFromContinuingAndDiscontinuedOperation => "NetIncomeFromContinuingAndDiscontinuedOperation"@,
            Self::TotalExpenses => "TotalExpenses"@,
            Self::RentExpenseSupplemental => "RentExpenseSupplemental"@,
            Self::ReportedNormalizedDilutedEPS => "ReportedNormalizedDilutedEPS"@,
            Self::ReportedNormalizedBasicEPS => "ReportedNormalizedBasicEPS"@,
            Self::TotalOperatingIncomeAsReported => "TotalOperatingIncomeAsReported"@,
            Self::DividendPerShare => "DividendPerShare"@,
            Self::DilutedAverageShares => "DilutedAverageShares"@,
            Self::BasicAverageShares => "BasicAverageShares"@,
            Self::DilutedEPS => "DilutedEPS"@,
            Self::DilutedEPSOtherGainsLosses => "DilutedEPSOtherGainsLosses"@,
            Self::TaxLossCarryforwardDilutedEPS => "TaxLossCarryforwardDilutedEPS"@,
            Self::DilutedAccountingChange => "DilutedAccountingChange"@,
            Self::DilutedExtraordinary => "DilutedExtraordinary"@,
            Self::DilutedDiscontinuousOperations => "DilutedDiscontinuousOperations"@,
            Self::DilutedContinuousOperations => "DilutedContinuousOperations"@,
            Self::BasicEPS => "BasicEPS"@,
            Self::BasicEPSOtherGainsLosses => "BasicEPSOtherGainsLosses"@,
            Self::TaxLossCarryforwardBasicEPS => "TaxLossCarryforwardBasicEPS"@,
            Self::BasicAccountingChange => "BasicAccountingChange"@,
            Self::BasicExtraordinary => "BasicExtraordinary"@,
            Self::BasicDiscontinuousOperations => "BasicDiscontinuousOperations"@,
            Self::BasicContinuousOperations => "BasicContinuousOperations"@,
            Self::DilutedNIAvailtoComStockholders => "DilutedNIAvailtoComStockholders"@,
            Self::AverageDilutionEarnings => "AverageDilutionEarnings"@,
            Self::NetIncomeCommonStockholders => "NetIncomeCommonStockholders"@,
            Self::OtherunderPreferredStockDividend => "OtherunderPreferredStockDividend"@,
            Self::PreferredStockDividends => "PreferredStockDividends"@,
            Self::NetIncome => "NetIncome"@,
            Self::MinorityInterests => "MinorityInterests"@,
            Self::NetIncomeIncludingNoncontrollingInterests => "NetIncomeIncludingNoncontrollingInterests"@,
            Self::NetIncomeFromTaxLossCarryforward => "NetIncomeFromTaxLossCarryforward"@,
            Self::NetIncomeExtraordinary => "NetIncomeExtraordinary"@,
            Self::NetIncomeDiscontinuousOperations => "NetIncomeDiscontinuousOperations"@,
            Self::NetIncomeContinuousOperations => "NetIncomeContinuousOperations"@,
            Self::EarningsFromEquityInterestNetOfTax => "EarningsFromEquityInterestNetOfTax"@,
            Self::TaxProvision => "TaxProvision"@,
            Self::PretaxIncome => "PretaxIncome"@,
            Self::OtherIncomeExpense => "OtherIncomeExpense"@,
            Self::OtherNonOperatingIncomeExpenses => "OtherNonOperatingIncomeExpenses"@,
            Self::SpecialIncomeCharges => "SpecialIncomeCharges"@,
            Self::GainOnSaleOfPPE => "GainOnSaleOfPPE"@,
            Self::GainOnSaleOfBusiness => "GainOnSaleOfBusiness"@,
            Self::OtherSpecialCharges => "OtherSpecialCharges"@,
            Self::WriteOff => "WriteOff"@,
            Self::ImpairmentOfCapitalAssets => "ImpairmentOfCapitalAssets"@,
            Self::RestructuringAndMergernAcquisition => "RestructuringAndMergernAcquisition"@,
            Self::SecuritiesAmortization => "SecuritiesAmortization"@,
            Self::EarningsFromEquityInterest => "EarningsFromEquityInterest"@,
            Self::GainOnSaleOfSecurity => "GainOnSaleOfSecurity"@,
            Self::NetNonOperatingInterestIncomeExpense => "NetNonOperatingInterestIncomeExpense"@,
            Self::TotalOtherFinanceCost => "TotalOtherFinanceCost"@,
            Self::InterestExpenseNonOperating => "InterestExpenseNonOperating"@,
            Self::InterestIncomeNonOperating => "InterestIncomeNonOperating"@,
            Self::OperatingIncome => "OperatingIncome"@,
            Self::OperatingExpense => "OperatingExpense"@,
            Self::OtherOperatingExpenses => "OtherOperatingExpenses"@,
            Self::OtherTaxes => "OtherTaxes"@,
            Self::ProvisionForDoubtfulAccounts => "ProvisionForDoubtfulAccounts"@,
            Self::DepreciationAmortizationDepletionIncomeStatement => "DepreciationAmortizationDepletionIncomeStatement"@,
            Self::DepletionIncomeStatement => "DepletionIncomeStatement"@,
            Self::DepreciationAndAmortizationInIncomeStatement => "DepreciationAndAmortizationInIncomeStatement"@,
            Self::Amortization => "Amortization"@,
            Self::AmortizationOfIntangiblesIncomeStatement => "AmortizationOfIntangiblesIncomeStatement"@,
            Self::DepreciationIncomeStatement => "DepreciationIncomeStatement"@,
            Self::ResearchAndDevelopment => "ResearchAndDevelopment"@,
            Self::SellingGeneralAndAdministration => "SellingGeneralAndAdministration"@,
            Self::SellingAndMarketingExpense => "SellingAndMarketingExpense"@,
            Self::GeneralAndAdministrativeExpense => "GeneralAndAdministrativeExpense"@,
            Self::OtherGandA => "OtherGandA"@,
            Self::InsuranceAndClaims => "InsuranceAndClaims"@,
            Self::RentAndLandingFees => "RentAndLandingFees"@,
            Self::SalariesAndWages => "SalariesAndWages"@,
            Self::GrossProfit => "GrossProfit"@,
            Self::CostOfRevenue => "CostOfRevenue"@,
            Self::TotalRevenue => "TotalRevenue"@,
            Self::ExciseTaxes => "ExciseTaxes"@,
            Self::OperatingRevenue => "OperatingRevenue"@,
        }
    }

    /// Every income statement item, once each, in the order of declaration.
    pub fn all() -> (facts: &'static [Self])
        ensures
            facts@.len() == Self::count(),
            forall|i: int| 0 <= i < facts@.len() ==> (#[trigger] facts@[i]).position() == i,
            forall|fact: Self| #[trigger] facts@[fact.position() as int] == fact,
    {
        &[
            Self::TaxEffectOfUnusualItems,
            Self::TaxRateForCalcs,
            Self::NormalizedEBITDA,
            Self::NormalizedDilutedEPS,
            Self::NormalizedBasicEPS,
            Self::TotalUnusualItems,
            Self::TotalUnusualItemsExcludingGoodwill,
            Self::NetIncomeFromContinuingOperationNetMinorityInterest,
            Self::ReconciledDepreciation,
            Self::ReconciledCostOfRevenue,
            Self::EBITDA,
            Self::EBIT,
            Self::NetInterestIncome,
            Self::InterestExpense,
            Self::InterestIncome,
            Self::ContinuingAndDiscontinuedDilutedEPS,
            Self::ContinuingAndDiscontinuedBasicEPS,
            Self::NormalizedIncome,
            Self::NetIncomeFromContinuingAndDiscontinuedOperation,
            Self::TotalExpenses,
            Self::RentExpenseSupplemental,
            Self::ReportedNormalizedDilutedEPS,
            Self::ReportedNormalizedBasicEPS,
            Self::TotalOperatingIncomeAsReported,
            Self::DividendPerShare,
            Self::DilutedAverageShares,
            Self::BasicAverageShares,
            Self::DilutedEPS,
            Self::DilutedEPSOtherGainsLosses,
            Self::TaxLossCarryforwardDilutedEPS,
            Self::DilutedAccountingChange,
            Self::DilutedExtraordinary,
            Self::DilutedDiscontinuousOperations,
            Self::DilutedContinuousOperations,
            Self::BasicEPS,
            Self::BasicEPSOtherGainsLosses,
            Self::TaxLossCarryforwardBasicEPS,
            Self::BasicAccountingChange,
            Self::BasicExtraordinary,
            Self::BasicDiscontinuousOperations,
            Self::BasicContinuousOperations,
            Self::DilutedNIAvailtoComStockholders,
            Self::AverageDilutionEarnings,
            Self::NetIncomeCommonStockholders,
            Self::OtherunderPreferredStockDividend,
            Self::PreferredStockDividends,
            Self::NetIncome,
            Self::MinorityInterests,
            Self::NetIncomeIncludingNoncontrollingInterests,
            Self::NetIncomeFromTaxLossCarryforward,
            Self::NetIncomeExtraordinary,
            Self::NetIncomeDiscontinuousOperations,
            Self::NetIncomeContinuousOperations,
            Self::EarningsFromEquityInterestNetOfTax,
            Self::TaxProvision,
            Self::PretaxIncome,
            Self::OtherIncomeExpense,
            Self::OtherNonOperatingIncomeExpenses,
            Self::SpecialIncomeCharges,
            Self::GainOnSaleOfPPE,
            Self::GainOnSaleOfBusiness,
            Self::OtherSpecialCharges,
            Self::WriteOff,
            Self::ImpairmentOfCapitalAssets,
            Self::RestructuringAndMergernAcquisition,
            Self::SecuritiesAmortization,
            Self::EarningsFromEquityInterest,
            Self::GainOnSaleOfSecurity,
            Self::NetNonOperatingInterestIncomeExpense,
            Self::TotalOtherFinanceCost,
            Self::InterestExpenseNonOperating,
            Self::InterestIncomeNonOperating,
            Self::OperatingIncome,
            Self::OperatingExpense,
            Self::OtherOperatingExpenses,
            Self::OtherTaxes,
            Self::ProvisionForDoubtfulAccounts,
            Self::DepreciationAmortizationDepletionIncomeStatement,
            Self::DepletionIncomeStatement,
            Self::DepreciationAndAmortizationInIncomeStatement,
            Self::Amortization,
            Self::AmortizationOfIntangiblesIncomeStatement,
            Self::DepreciationIncomeStatement,
            Self::ResearchAndDevelopment,
            Self::SellingGeneralAndAdministration,
            Self::SellingAndMarketingExpense,
            Self::GeneralAndAdministrativeExpense,
            Self::OtherGandA,
            Self::InsuranceAndClaims,
            Self::RentAndLandingFees,
            Self::SalariesAndWages,
            Self::GrossProfit,
            Self::CostOfRevenue,
            Self::TotalRevenue,
            Self::ExciseTaxes,
            Self::OperatingRevenue,
        ]
    }
}

/// No two income statement items go by the same name: two names of one length
/// differ at one of a few places.
pub proof fn lemma_income_statement_names_differ(
    first: IncomeStatementFact,
    second: IncomeStatementFact,
)
    requires
        first.name() == second.name(),
    ensures
        first == second,
{
    reveal_strlit("TaxEffectOfUnusualItems");
    assert("TaxEffectOfUnusualItems"@.len() == 23
        && "TaxEffectOfUnusualItems"@[7] == 'c'
        && "TaxEffectOfUnusualItems"@[14] == 's');
    reveal_strlit("TaxRateForCalcs");
    assert("TaxRateForCalcs"@.len() == 15
        && "TaxRateForCalcs"@[7] == 'F'
        && "TaxRateForCalcs"@[14] == 's');
    reveal_strlit("NormalizedEBITDA");
    assert("NormalizedEBITDA"@.len() == 16
        && "NormalizedEBITDA"@[7] == 'z'
        && "NormalizedEBITDA"@[14] == 'D');
    reveal_strlit("NormalizedDilutedEPS");
    assert("NormalizedDilutedEPS"@.len() == 20
        && "NormalizedDilutedEPS"@[7] == 'z'
        && "NormalizedDilutedEPS"@[14] == 't');
    reveal_strlit("NormalizedBasicEPS");
    assert("NormalizedBasicEPS"@.len() == 18
        && "NormalizedBasicEPS"@[7] == 'z'
        && "NormalizedBasicEPS"@[14] == 'c');
    reveal_strlit("TotalUnusualItems");
    assert("TotalUnusualItems"@.len() == 17
        && "TotalUnusualItems"@[7] == 'u'
        && "TotalUnusualItems"@[14] == 'e');
    reveal_strlit("TotalUnusualItemsExcludingGoodwill");
    assert("TotalUnusualItemsExcludingGoodwill"@.len() == 34
        && "TotalUnusualItemsExcludingGoodwill"@[7] == 'u'
        && "TotalUnusualItemsExcludingGoodwill"@[14] == 'e');
    reveal_strlit("NetIncomeFromContinuingOperationNetMinorityInterest");
    assert("NetIncomeFromContinuingOperationNetMinorityInterest"@.len() == 51
        && "NetIncomeFromContinuingOperationNetMinorityInterest"@[7] == 'm'
        && "NetIncomeFromContinuingOperationNetMinorityInterest"@[14] == 'o');
    reveal_strlit("ReconciledDepreciation");
    assert("ReconciledDepreciation"@.len() == 22
        && "ReconciledDepreciation"@[7] == 'l'
        && "ReconciledDepreciation"@[14] == 'e');
    reveal_strlit("ReconciledCostOfRevenue");
    assert("ReconciledCostOfRevenue"@.len() == 23
        && "ReconciledCostOfRevenue"@[7] == 'l'
        && "ReconciledCostOfRevenue"@[14] == 'O');
    reveal_strlit("EBITDA");
    assert("EBITDA"@.len() == 6);
    reveal_strlit("EBIT");
    assert("EBIT"@.len() == 4);
    reveal_strlit("NetInterestIncome");
    assert("NetInterestIncome"@.len() == 17
        && "NetInterestIncome"@[7] == 'r'
        && "NetInterestIncome"@[14] == 'o');
    reveal_strlit("InterestExpense");
    assert("InterestExpense"@.len() == 15
        && "InterestExpense"@[7] == 't'
        && "InterestExpense"@[14] == 'e');
    reveal_strlit("InterestIncome");
    assert("InterestIncome"@.len() == 14
        && "InterestIncome"@[7] == 't');
    reveal_strlit("ContinuingAndDiscontinuedDilutedEPS");
    assert("ContinuingAndDiscontinuedDilutedEPS"@.len() == 35
        && "ContinuingAndDiscontinuedDilutedEPS"@[7] == 'i'
        && "ContinuingAndDiscontinuedDilutedEPS"@[14] == 'i');
    reveal_strlit("ContinuingAndDiscontinuedBasicEPS");
    assert("ContinuingAndDiscontinuedBasicEPS"@.len() == 33
        && "ContinuingAndDiscontinuedBasicEPS"@[7] == 'i'
        && "ContinuingAndDiscontinuedBasicEPS"@[14] == 'i');
    reveal_strlit("NormalizedIncome");
    assert("NormalizedIncome"@.len() == 16
        && "NormalizedIncome"@[7] == 'z'
        && "NormalizedIncome"@[14] == 'm');
    reveal_strlit("NetIncomeFromContinuingAndDiscontinuedOperation");
    assert("NetIncomeFromContinuingAndDiscontinuedOperation"@.len() == 47
        && "NetIncomeFromContinuingAndDiscontinuedOperation"@[7] == 'm'
        && "NetIncomeFromContinuingAndDiscontinuedOperation"@[14] == 'o');
    reveal_strlit("TotalExpenses");
    assert("TotalExpenses"@.len() == 13
        && "TotalExpenses"@[7] == 'p');
    reveal_strlit("RentExpenseSupplemental");
    assert("RentExpenseSupplemental"@.len() == 23
        && "RentExpenseSupplemental"@[7] == 'e'
        && "RentExpenseSupplemental"@[14] == 'p');
    reveal_strlit("ReportedNormalizedDilutedEPS");
    assert("ReportedNormalizedDilutedEPS"@.len() == 28
        && "ReportedNormalizedDilutedEPS"@[7] == 'd'
        && "ReportedNormalizedDilutedEPS"@[14] == 'i');
    reveal_strlit("ReportedNormalizedBasicEPS");
    assert("ReportedNormalizedBasicEPS"@.len() == 26
        && "ReportedNormalizedBasicEPS"@[7] == 'd'
        && "ReportedNormalizedBasicEPS"@[14] == 'i');
    reveal_strlit("TotalOperatingIncomeAsReported");
    assert("TotalOperatingIncomeAsReported"@.len() == 30
        && "TotalOperatingIncomeAsReported"@[7] == 'e'
        && "TotalOperatingIncomeAsReported"@[14] == 'I');
    reveal_strlit("DividendPerShare");
    assert("DividendPerShare"@.len() == 16
        && "DividendPerShare"@[7] == 'd'
        && "DividendPerShare"@[14] == 'r');
    reveal_strlit("DilutedAverageShares");
    assert("DilutedAverageShares"@.len() == 20
        && "DilutedAverageShares"@[7] == 'A'
        && "DilutedAverageShares"@[14] == 'S');
    reveal_strlit("BasicAverageShares");
    assert("BasicAverageShares"@.len() == 18
        && "BasicAverageShares"@[7] == 'e'
        && "BasicAverageShares"@[14] == 'a');
    reveal_strlit("DilutedEPS");
    assert("DilutedEPS"@.len() == 10
        && "DilutedEPS"@[7] == 'E');
    reveal_strlit("DilutedEPSOtherGainsLosses");
    assert("DilutedEPSOtherGainsLosses"@.len() == 26
        && "DilutedEPSOtherGainsLosses"@[7] == 'E'
        && "DilutedEPSOtherGainsLosses"@[14] == 'r');
    reveal_strlit("TaxLossCarryforwardDilutedEPS");
    assert("TaxLossCarryforwardDilutedEPS"@.len() == 29
        && "TaxLossCarryforwardDilutedEPS"@[7] == 'C'
        && "TaxLossCarryforwardDilutedEPS"@[14] == 'r');
    reveal_strlit("DilutedAccountingChange");
    assert("DilutedAccountingChange"@.len() == 23
        && "DilutedAccountingChange"@[7] == 'A'
        && "DilutedAccountingChange"@[14] == 'i');
    reveal_strlit("DilutedExtraordinary");
    assert("DilutedExtraordinary"@.len() == 20
        && "DilutedExtraordinary"@[7] == 'E'
        && "DilutedExtraordinary"@[14] == 'd');
    reveal_strlit("DilutedDiscontinuousOperations");
    assert("DilutedDiscontinuousOperations"@.len() == 30
        && "DilutedDiscontinuousOperations"@[7] == 'D'
        && "DilutedDiscontinuousOperations"@[14] == 'i');
    reveal_strlit("DilutedContinuousOperations");
    assert("DilutedContinuousOperations"@.len() == 27
        && "DilutedContinuousOperations"@[7] == 'C'
        && "DilutedContinuousOperations"@[14] == 'o');
    reveal_strlit("BasicEPS");
    assert("BasicEPS"@.len() == 8
        && "BasicEPS"@[7] == 'S');
    reveal_strlit("BasicEPSOtherGainsLosses");
    assert("BasicEPSOtherGainsLosses"@.len() == 24
        && "BasicEPSOtherGainsLosses"@[7] == 'S'
        && "BasicEPSOtherGainsLosses"@[14] == 'a');
    reveal_strlit("TaxLossCarryforwardBasicEPS");
    assert("TaxLossCarryforwardBasicEPS"@.len() == 27
        && "TaxLossCarryforwardBasicEPS"@[7] == 'C'
        && "TaxLossCarryforwardBasicEPS"@[14] == 'r');
    reveal_strlit("BasicAccountingChange");
    assert("BasicAccountingChange"@.len() == 21
        && "BasicAccountingChange"@[7] == 'c'
        && "BasicAccountingChange"@[14] == 'g');
    reveal_strlit("BasicExtraordinary");
    assert("BasicExtraordinary"@.len() == 18
        && "BasicExtraordinary"@[7] == 't'
        && "BasicExtraordinary"@[14] == 'n');
    reveal_strlit("BasicDiscontinuousOperations");
    assert("BasicDiscontinuousOperations"@.len() == 28
        && "BasicDiscontinuousOperations"@[7] == 's'
        && "BasicDiscontinuousOperations"@[14] == 'u');
    reveal_strlit("BasicContinuousOperations");
    assert("BasicContinuousOperations"@.len() == 25
        && "BasicContinuousOperations"@[7] == 'n'
        && "BasicContinuousOperations"@[14] == 's');
    reveal_strlit("DilutedNIAvailtoComStockholders");
    assert("DilutedNIAvailtoComStockholders"@.len() == 31
        && "DilutedNIAvailtoComStockholders"@[7] == 'N'
        && "DilutedNIAvailtoComStockholders"@[14] == 't');
    reveal_strlit("AverageDilutionEarnings");
    assert("AverageDilutionEarnings"@.len() == 23
        && "AverageDilutionEarnings"@[7] == 'D'
        && "AverageDilutionEarnings"@[14] == 'n');
    reveal_strlit("NetIncomeCommonStockholders");
    assert("NetIncomeCommonStockholders"@.len() == 27
        && "NetIncomeCommonStockholders"@[7] == 'm'
        && "NetIncomeCommonStockholders"@[14] == 'n');
    reveal_strlit("OtherunderPreferredStockDividend");
    assert("OtherunderPreferredStockDividend"@.len() == 32
        && "OtherunderPreferredStockDividend"@[7] == 'd'
        && "OtherunderPreferredStockDividend"@[14] == 'e');
    reveal_strlit("PreferredStockDividends");
    assert("PreferredStockDividends"@.len() == 23
        && "PreferredStockDividends"@[7] == 'e'
        && "PreferredStockDividends"@[14] == 'D');
    reveal_strlit("NetIncome");
    assert("NetIncome"@.len() == 9
        && "NetIncome"@[7] == 'm');
    reveal_strlit("MinorityInterests");
    assert("MinorityInterests"@.len() == 17
        && "MinorityInterests"@[7] == 'y'
        && "MinorityInterests"@[14] == 's');
    reveal_strlit("NetIncomeIncludingNoncontrollingInterests");
    assert("NetIncomeIncludingNoncontrollingInterests"@.len() == 41
        && "NetIncomeIncludingNoncontrollingInterests"@[7] == 'm'
        && "NetIncomeIncludingNoncontrollingInterests"@[14] == 'd');
    reveal_strlit("NetIncomeFromTaxLossCarryforward");
    assert("NetIncomeFromTaxLossCarryforward"@.len() == 32
        && "NetIncomeFromTaxLossCarryforward"@[7] == 'm'
        && "NetIncomeFromTaxLossCarryforward"@[14] == 'a');
    reveal_strlit("NetIncomeExtraordinary");
    assert("NetIncomeExtraordinary"@.len() == 22
        && "NetIncomeExtraordinary"@[7] == 'm'
        && "NetIncomeExtraordinary"@[14] == 'o');
    reveal_strlit("NetIncomeDiscontinuousOperations");
    assert("NetIncomeDiscontinuousOperations"@.len() == 32
        && "NetIncomeDiscontinuousOperations"@[7] == 'm'
        && "NetIncomeDiscontinuousOperations"@[14] == 'n');
    reveal_strlit("NetIncomeContinuousOperations");
    assert("NetIncomeContinuousOperations"@.len() == 29
        && "NetIncomeContinuousOperations"@[7] == 'm'
        && "NetIncomeContinuousOperations"@[14] == 'n');
    reveal_strlit("EarningsFromEquityInterestNetOfTax");
    assert("EarningsFromEquityInterestNetOfTax"@.len() == 34
        && "EarningsFromEquityInterestNetOfTax"@[7] == 's'
        && "EarningsFromEquityInterestNetOfTax"@[14] == 'u');
    reveal_strlit("TaxProvision");
    assert("TaxProvision"@.len() == 12
        && "TaxProvision"@[7] == 'i');
    reveal_strlit("PretaxIncome");
    assert("PretaxIncome"@.len() == 12
        && "PretaxIncome"@[7] == 'n');
    reveal_strlit("OtherIncomeExpense");
    assert("OtherIncomeExpense"@.len() == 18
        && "OtherIncomeExpense"@[7] == 'c'
        && "OtherIncomeExpense"@[14] == 'e');
    reveal_strlit("OtherNonOperatingIncomeExpenses");
    assert("OtherNonOperatingIncomeExpenses"@.len() == 31
        && "OtherNonOperatingIncomeExpenses"@[7] == 'n'
        && "OtherNonOperatingIncomeExpenses"@[14] == 'i');
    reveal_strlit("SpecialIncomeCharges");
    assert("SpecialIncomeCharges"@.len() == 20
        && "SpecialIncomeCharges"@[7] == 'I'
        && "SpecialIncomeCharges"@[14] == 'h');
    reveal_strlit("GainOnSaleOfPPE");
    assert("GainOnSaleOfPPE"@.len() == 15
        && "GainOnSaleOfPPE"@[7] == 'a'
        && "GainOnSaleOfPPE"@[14] == 'E');
    reveal_strlit("GainOnSaleOfBusiness");
    assert("GainOnSaleOfBusiness"@.len() == 20
        && "GainOnSaleOfBusiness"@[7] == 'a'
        && "GainOnSaleOfBusiness"@[14] == 's');
    reveal_strlit("OtherSpecialCharges");
    assert("OtherSpecialCharges"@.len() == 19
        && "OtherSpecialCharges"@[7] == 'e'
        && "OtherSpecialCharges"@[14] == 'a');
    reveal_strlit("WriteOff");
    assert("WriteOff"@.len() == 8
        && "WriteOff"@[7] == 'f');
    reveal_strlit("ImpairmentOfCapitalAssets");
    assert("ImpairmentOfCapitalAssets"@.len() == 25
        && "ImpairmentOfCapitalAssets"@[7] == 'e'
        && "ImpairmentOfCapitalAssets"@[14] == 'p');
    reveal_strlit("RestructuringAndMergernAcquisition");
    assert("RestructuringAndMergernAcquisition"@.len() == 34
        && "RestructuringAndMergernAcquisition"@[7] == 't'
        && "RestructuringAndMergernAcquisition"@[14] == 'n');
    reveal_strlit("SecuritiesAmortization");
    assert("SecuritiesAmortization"@.len() == 22
        && "SecuritiesAmortization"@[7] == 'i'
        && "SecuritiesAmortization"@[14] == 't');
    reveal_strlit("EarningsFromEquityInterest");
    assert("EarningsFromEquityInterest"@.len() == 26
        && "EarningsFromEquityInterest"@[7] == 's'
        && "EarningsFromEquityInterest"@[14] == 'u');
    reveal_strlit("GainOnSaleOfSecurity");
    assert("GainOnSaleOfSecurity"@.len() == 20
        && "GainOnSaleOfSecurity"@[7] == 'a'
        && "GainOnSaleOfSecurity"@[14] == 'c');
    reveal_strlit("NetNonOperatingInterestIncomeExpense");
    assert("NetNonOperatingInterestIncomeExpense"@.len() == 36
        && "NetNonOperatingInterestIncomeExpense"@[7] == 'p'
        && "NetNonOperatingInterestIncomeExpense"@[14] == 'g');
    reveal_strlit("TotalOtherFinanceCost");
    assert("TotalOtherFinanceCost"@.len() == 21
        && "TotalOtherFinanceCost"@[7] == 'h'
        && "TotalOtherFinanceCost"@[14] == 'n');
    reveal_strlit("InterestExpenseNonOperating");
    assert("InterestExpenseNonOperating"@.len() == 27
        && "InterestExpenseNonOperating"@[7] == 't'
        && "InterestExpenseNonOperating"@[14] == 'e');
    reveal_strlit("InterestIncomeNonOperating");
    assert("InterestIncomeNonOperating"@.len() == 26
        && "InterestIncomeNonOperating"@[7] == 't'
        && "InterestIncomeNonOperating"@[14] == 'N');
    reveal_strlit("OperatingIncome");
    assert("OperatingIncome"@.len() == 15
        && "OperatingIncome"@[7] == 'n'
        && "OperatingIncome"@[14] == 'e');
    reveal_strlit("OperatingExpense");
    assert("OperatingExpense"@.len() == 16
        && "OperatingExpense"@[7] == 'n'
        && "OperatingExpense"@[14] == 's');
    reveal_strlit("OtherOperatingExpenses");
    assert("OtherOperatingExpenses"@.len() == 22
        && "OtherOperatingExpenses"@[7] == 'e'
        && "OtherOperatingExpenses"@[14] == 'E');
    reveal_strlit("OtherTaxes");
    assert("OtherTaxes"@.len() == 10
        && "OtherTaxes"@[7] == 'x');
    reveal_strlit("ProvisionForDoubtfulAccounts");
    assert("ProvisionForDoubtfulAccounts"@.len() == 28
        && "ProvisionForDoubtfulAccounts"@[7] == 'o'
        && "ProvisionForDoubtfulAccounts"@[14] == 'u');
    reveal_strlit("DepreciationAmortizationDepletionIncomeStatement");
    assert("DepreciationAmortizationDepletionIncomeStatement"@.len() == 48
        && "DepreciationAmortizationDepletionIncomeStatement"@[7] == 'a'
        && "DepreciationAmortizationDepletionIncomeStatement"@[14] == 'o');
    reveal_strlit("DepletionIncomeStatement");
    assert("DepletionIncomeStatement"@.len() == 24
        && "DepletionIncomeStatement"@[7] == 'o'
        && "DepletionIncomeStatement"@[14] == 'e');
    reveal_strlit("DepreciationAndAmortizationInIncomeStatement");
    assert("DepreciationAndAmortizationInIncomeStatement"@.len() == 44
        && "DepreciationAndAmortizationInIncomeStatement"@[7] == 'a'
        && "DepreciationAndAmortizationInIncomeStatement"@[14] == 'd');
    reveal_strlit("Amortization");
    assert("Amortization"@.len() == 12
        && "Amortization"@[7] == 'a');
    reveal_strlit("AmortizationOfIntangiblesIncomeStatement");
    assert("AmortizationOfIntangiblesIncomeStatement"@.len() == 40
        && "AmortizationOfIntangiblesIncomeStatement"@[7] == 'a'
        && "AmortizationOfIntangiblesIncomeStatement"@[14] == 'I');
    reveal_strlit("DepreciationIncomeStatement");
    assert("DepreciationIncomeStatement"@.len() == 27
        && "DepreciationIncomeStatement"@[7] == 'a'
        && "DepreciationIncomeStatement"@[14] == 'c');
    reveal_strlit("ResearchAndDevelopment");
    assert("ResearchAndDevelopment"@.len() == 22
        && "ResearchAndDevelopment"@[7] == 'h'
        && "ResearchAndDevelopment"@[14] == 'e');
    reveal_strlit("SellingGeneralAndAdministration");
    assert("SellingGeneralAndAdministration"@.len() == 31
        && "SellingGeneralAndAdministration"@[7] == 'G'
        && "SellingGeneralAndAdministration"@[14] == 'A');
    reveal_strlit("SellingAndMarketingExpense");
    assert("SellingAndMarketingExpense"@.len() == 26
        && "SellingAndMarketingExpense"@[7] == 'A'
        && "SellingAndMarketingExpense"@[14] == 'e');
    reveal_strlit("GeneralAndAdministrativeExpense");
    assert("GeneralAndAdministrativeExpense"@.len() == 31
        && "GeneralAndAdministrativeExpense"@[7] == 'A'
        && "GeneralAndAdministrativeExpense"@[14] == 'n');
    reveal_strlit("OtherGandA");
    assert("OtherGandA"@.len() == 10
        && "OtherGandA"@[7] == 'n');
    reveal_strlit("InsuranceAndClaims");
    assert("InsuranceAndClaims"@.len() == 18
        && "InsuranceAndClaims"@[7] == 'c'
        && "InsuranceAndClaims"@[14] == 'a');
    reveal_strlit("RentAndLandingFees");
    assert("RentAndLandingFees"@.len() == 18
        && "RentAndLandingFees"@[7] == 'L'
        && "RentAndLandingFees"@[14] == 'F');
    reveal_strlit("SalariesAndWages");
    assert("SalariesAndWages"@.len() == 16
        && "SalariesAndWages"@[7] == 's'
        && "SalariesAndWages"@[14] == 'e');
    reveal_strlit("GrossProfit");
    assert("GrossProfit"@.len() == 11
        && "GrossProfit"@[7] == 'o');
    reveal_strlit("CostOfRevenue");
    assert("CostOfRevenue"@.len() == 13
        && "CostOfRevenue"@[7] == 'e');
    reveal_strlit("TotalRevenue");
    assert("TotalRevenue"@.len() == 12
        && "TotalRevenue"@[7] == 'v');
    reveal_strlit("ExciseTaxes");
    assert("ExciseTaxes"@.len() == 11
        && "ExciseTaxes"@[7] == 'a');
    reveal_strlit("OperatingRevenue");
    assert("OperatingRevenue"@.len() == 16
        && "OperatingRevenue"@[7] == 'n'
        && "OperatingRevenue"@[14] == 'u');
}

impl AsStr for IncomeStatementFact {
    open spec fn spec_str(&self) -> Seq<char> {
        self.name()
    }

    fn as_str(&self) -> (name: &str) {
        match self {
            Self::TaxEffectOfUnusualItems => "TaxEffectOfUnusualItems",
            Self::TaxRateForCalcs => "TaxRateForCalcs",
            Self::NormalizedEBITDA => "NormalizedEBITDA",
            Self::NormalizedDilutedEPS => "NormalizedDilutedEPS",
            Self::NormalizedBasicEPS => "NormalizedBasicEPS",
            Self::TotalUnusualItems => "TotalUnusualItems",
            Self::TotalUnusualItemsExcludingGoodwill => "TotalUnusualItemsExcludingGoodwill",
            Self::NetIncomeFromContinuingOperationNetMinorityInterest => "NetIncomeFromContinuingOperationNetMinorityInterest",
            Self::ReconciledDepreciation => "ReconciledDepreciation",
            Self::ReconciledCostOfRevenue => "ReconciledCostOfRevenue",
            Self::EBITDA => "EBITDA",
            Self::EBIT => "EBIT",
            Self::NetInterestIncome => "NetInterestIncome",
            Self::InterestExpense => "InterestExpense",
            Self::InterestIncome => "InterestIncome",
            Self::ContinuingAndDiscontinuedDilutedEPS => "ContinuingAndDiscontinuedDilutedEPS",
            Self::ContinuingAndDiscontinuedBasicEPS => "ContinuingAndDiscontinuedBasicEPS",
            Self::NormalizedIncome => "NormalizedIncome",
            Self::NetIncomeFromContinuingAndDiscontinuedOperation => "NetIncomeFromContinuingAndDiscontinuedOperation",
            Self::TotalExpenses => "TotalExpenses",
            Self::RentExpenseSupplemental => "RentExpenseSupplemental",
            Self::ReportedNormalizedDilutedEPS => "ReportedNormalizedDilutedEPS",
            Self::ReportedNormalizedBasicEPS => "ReportedNormalizedBasicEPS",
            Self::TotalOperatingIncomeAsReported => "TotalOperatingIncomeAsReported",
            Self::DividendPerShare => "DividendPerShare",
            Self::DilutedAverageShares => "DilutedAverageShares",
            Self::BasicAverageShares => "BasicAverageShares",
            Self::DilutedEPS => "DilutedEPS",
            Self::DilutedEPSOtherGainsLosses => "DilutedEPSOtherGainsLosses",
            Self::TaxLossCarryforwardDilutedEPS => "TaxLossCarryforwardDilutedEPS",
            Self::DilutedAccountingChange => "DilutedAccountingChange",
            Self::DilutedExtraordinary => "DilutedExtraordinary",
            Self::DilutedDiscontinuousOperations => "DilutedDiscontinuousOperations",
            Self::DilutedContinuousOperations => "DilutedContinuousOperations",
            Self::BasicEPS => "BasicEPS",
            Self::BasicEPSOtherGainsLosses => "BasicEPSOtherGainsLosses",
            Self::TaxLossCarryforwardBasicEPS => "TaxLossCarryforwardBasicEPS",
            Self::BasicAccountingChange => "BasicAccountingChange",
            Self::BasicExtraordinary => "BasicExtraordinary",
            Self::BasicDiscontinuousOperations => "BasicDiscontinuousOperations",
            Self::BasicContinuousOperations => "BasicContinuousOperations",
            Self::DilutedNIAvailtoComStockholders => "DilutedNIAvailtoComStockholders",
            Self::AverageDilutionEarnings => "AverageDilutionEarnings",
            Self::NetIncomeCommonStockholders => "NetIncomeCommonStockholders",
            Self::OtherunderPreferredStockDividend => "OtherunderPreferredStockDividend",
            Self::PreferredStockDividends => "PreferredStockDividends",
            Self::NetIncome => "NetIncome",
            Self::MinorityInterests => "MinorityInterests",
            Self::NetIncomeIncludingNoncontrollingInterests => "NetIncomeIncludingNoncontrollingInterests",
            Self::NetIncomeFromTaxLossCarryforward => "NetIncomeFromTaxLossCarryforward",
            Self::NetIncomeExtraordinary => "NetIncomeExtraordinary",
            Self::NetIncomeDiscontinuousOperations => "NetIncomeDiscontinuousOperations",
            Self::NetIncomeContinuousOperations => "NetIncomeContinuousOperations",
            Self::EarningsFromEquityInterestNetOfTax => "EarningsFromEquityInterestNetOfTax",
            Self::TaxProvision => "TaxProvision",
            Self::PretaxIncome => "PretaxIncome",
            Self::OtherIncomeExpense => "OtherIncomeExpense",
            Self::OtherNonOperatingIncomeExpenses => "OtherNonOperatingIncomeExpenses",
            Self::SpecialIncomeCharges => "SpecialIncomeCharges",
            Self::GainOnSaleOfPPE => "GainOnSaleOfPPE",
            Self::GainOnSaleOfBusiness => "GainOnSaleOfBusiness",
            Self::OtherSpecialCharges => "OtherSpecialCharges",
            Self::WriteOff => "WriteOff",
            Self::ImpairmentOfCapitalAssets => "ImpairmentOfCapitalAssets",
            Self::RestructuringAndMergernAcquisition => "RestructuringAndMergernAcquisition",
            Self::SecuritiesAmortization => "SecuritiesAmortization",
            Self::EarningsFromEquityInterest => "EarningsFromEquityInterest",
            Self::GainOnSaleOfSecurity => "GainOnSaleOfSecurity",
            Self::NetNonOperatingInterestIncomeExpense => "NetNonOperatingInterestIncomeExpense",
            Self::TotalOtherFinanceCost => "TotalOtherFinanceCost",
            Self::InterestExpenseNonOperating => "InterestExpenseNonOperating",
            Self::InterestIncomeNonOperating => "InterestIncomeNonOperating",
            Self::OperatingIncome => "OperatingIncome",
            Self::OperatingExpense => "OperatingExpense",
            Self::OtherOperatingExpenses => "OtherOperatingExpenses",
            Self::OtherTaxes => "OtherTaxes",
            Self::ProvisionForDoubtfulAccounts => "ProvisionForDoubtfulAccounts",
            Self::DepreciationAmortizationDepletionIncomeStatement => "DepreciationAmortizationDepletionIncomeStatement",
            Self::DepletionIncomeStatement => "DepletionIncomeStatement",
            Self::DepreciationAndAmortizationInIncomeStatement => "DepreciationAndAmortizationInIncomeStatement",
            Self::Amortization => "Amortization",
            Self::AmortizationOfIntangiblesIncomeStatement => "AmortizationOfIntangiblesIncomeStatement",
            Self::DepreciationIncomeStatement => "DepreciationIncomeStatement",
            Self::ResearchAndDevelopment => "ResearchAndDevelopment",
            Self::SellingGeneralAndAdministration => "SellingGeneralAndAdministration",
            Self::SellingAndMarketingExpense => "SellingAndMarketingExpense",
            Self::GeneralAndAdministrativeExpense => "GeneralAndAdministrativeExpense",
            Self::OtherGandA => "OtherGandA",
            Self::InsuranceAndClaims => "InsuranceAndClaims",
            Self::RentAndLandingFees => "RentAndLandingFees",
            Self::SalariesAndWages => "SalariesAndWages",
            Self::GrossProfit => "GrossProfit",
            Self::CostOfRevenue => "CostOfRevenue",
            Self::TotalRevenue => "TotalRevenue",
            Self::ExciseTaxes => "ExciseTaxes",
            Self::OperatingRevenue => "OperatingRevenue",
        }
    }
}

} // verus!
