use vstd::prelude::*;

use super::AsStr;

verus! {

/// A line item of a cash flow statement.
///
/// The name under which the service knows an item is the name of its variant.
#[derive(Debug, Clone, Copy, PartialEq, Eq, PartialOrd, Ord, Hash)]
pub enum CashflowFact {
    ForeignSales,
    DomesticSales,
    AdjustedGeographySegmentData,
    FreeCashFlow,
    RepurchaseOfCapitalStock,
    RepaymentOfDebt,
    IssuanceOfDebt,
    IssuanceOfCapitalStock,
    CapitalExpenditure,
    InterestPaidSupplementalData,
    IncomeTaxPaidSupplementalData,
    EndCashPosition,
    OtherCashAdjustmentOutsideChangeinCash,
    BeginningCashPosition,
    EffectOfExchangeRateChanges,
    ChangesInCash,
    OtherCashAdjustmentInsideChangeinCash,
    CashFlowFromDiscontinuedOperation,
    FinancingCashFlow,
    CashFromDiscontinuedFinancingActivities,
    CashFlowFromContinuingFinancingActivities,
    NetOtherFinancingCharges,
    InterestPaidCFF,
    ProceedsFromStockOptionExercised,
    CashDividendsPaid,
    PreferredStockDividendPaid,
    CommonStockDividendPaid,
    NetPreferredStockIssuance,
    PreferredStockPayments,
    PreferredStockIssuance,
    NetCommonStockIssuance,
    CommonStockPayments,
    CommonStockIssuance,
    NetIssuancePaymentsOfDebt,
    NetShortTermDebtIssuance,
    ShortTermDebtPayments,
    ShortTermDebtIssuance,
    NetLongTermDebtIssuance,
    LongTermDebtPayments,
    LongTermDebtIssuance,
    InvestingCashFlow,
    CashFromDiscontinuedInvestingActivities,
    CashFlowFromContinuingInvestingActivities,
    NetOtherInvestingChanges,
    InterestReceivedCFI,
    DividendsReceivedCFI,
    NetInvestmentPurchaseAndSale,
    SaleOfInvestment,
    PurchaseOfInvestment,
    NetInvestmentPropertiesPurchaseAndSale,
    SaleOfInvestmentProperties,
    PurchaseOfInvestmentProperties,
    NetBusinessPurchaseAndSale,
    SaleOfBusiness,
    PurchaseOfBusiness,
    NetIntangiblesPurchaseAndSale,
    SaleOfIntangibles,
    PurchaseOfIntangibles,
    NetPPEPurchaseAndSale,
    SaleOfPPE,
    PurchaseOfPPE,
    CapitalExpenditureReported,
    OperatingCashFlow,
    CashFromDiscontinuedOperatingActivities,
    CashFlowFromContinuingOperatingActivities,
    TaxesRefundPaid,
    InterestReceivedCFO,
    InterestPaidCFO,
    DividendReceivedCFO,
    DividendPaidCFO,
    ChangeInWorkingCapital,
    ChangeInOtherWorkingCapital,
    ChangeInOtherCurrentLiabilities,
    ChangeInOtherCurrentAssets,
    ChangeInPayablesAndAccruedExpense,
    ChangeInAccruedExpense,
    ChangeInInterestPayable,
    ChangeInPayable,
    ChangeInDividendPayable,
    ChangeInAccountPayable,
    ChangeInTaxPayable,
    ChangeInIncomeTaxPayable,
    ChangeInPrepaidAssets,
    ChangeInInventory,
    ChangeInReceivables,
    ChangesInAccountReceivables,
    OtherNonCashItems,
    ExcessTaxBenefitFromStockBasedCompensation,
    StockBasedCompensation,
    UnrealizedGainLossOnInvestmentSecurities,
    ProvisionandWriteOffofAssets,
    AssetImpairmentCharge,
    AmortizationOfSecurities,
    DeferredTax,
    DeferredIncomeTax,
    DepreciationAmortizationDepletion,
    Depletion,
    DepreciationAndAmortization,
    AmortizationCashFlow,
    AmortizationOfIntangibles,
    Depreciation,
    OperatingGainsLosses,
    PensionAndEmployeeBenefitExpense,
    EarningsLossesFromEquityInvestments,
    GainLossOnInvestmentSecurities,
    NetForeignCurrencyExchangeGainLoss,
    GainLossOnSaleOfPPE,
    GainLossOnSaleOfBusiness,
    NetIncomeFromContinuingOperations,
    CashFlowsfromusedinOperatingActivitiesDirect,
    TaxesRefundPaidDirect,
    InterestReceivedDirect,
    InterestPaidDirect,
    DividendsReceivedDirect,
    DividendsPaidDirect,
    ClassesofCashPayments,
    OtherCashPaymentsfromOperatingActivities,
    PaymentsonBehalfofEmployees,
    PaymentstoSuppliersforGoodsandServices,
    ClassesofCashReceiptsfromOperatingActivities,
    OtherCashReceiptsfromOperatingActivities,
    ReceiptsfromGovernmentGrants,
    ReceiptsfromCustomers,
}

impl CashflowFact {
    /// Number of cash flow statement items.
    pub open spec fn count() -> nat {
        123
    }

    /// Place of the item in the order of declaration, counted from zero.
    pub open spec fn position(&self) -> nat {
        match self {
            Self::ForeignSales => 0,
            Self::DomesticSales => 1,
            Self::AdjustedGeographySegmentData => 2,
            Self::FreeCashFlow => 3,
            Self::RepurchaseOfCapitalStock => 4,
            Self::RepaymentOfDebt => 5,
            Self::IssuanceOfDebt => 6,
            Self::IssuanceOfCapitalStock => 7,
            Self::CapitalExpenditure => 8,
            Self::InterestPaidSupplementalData => 9,
            Self::IncomeTaxPaidSupplementalData => 10,
            Self::EndCashPosition => 11,
            Self::OtherCashAdjustmentOutsideChangeinCash => 12,
            Self::BeginningCashPosition => 13,
            Self::EffectOfExchangeRateChanges => 14,
            Self::ChangesInCash => 15,
            Self::OtherCashAdjustmentInsideChangeinCash => 16,
            Self::CashFlowFromDiscontinuedOperation => 17,
            Self::FinancingCashFlow => 18,
            Self::CashFromDiscontinuedFinancingActivities => 19,
            Self::CashFlowFromContinuingFinancingActivities => 20,
            Self::NetOtherFinancingCharges => 21,
            Self::InterestPaidCFF => 22,
            Self::ProceedsFromStockOptionExercised => 23,
            Self::CashDividendsPaid => 24,
            Self::PreferredStockDividendPaid => 25,
            Self::CommonStockDividendPaid => 26,
            Self::NetPreferredStockIssuance => 27,
            Self::PreferredStockPayments => 28,
            Self::PreferredStockIssuance => 29,
            Self::NetCommonStockIssuance => 30,
            Self::CommonStockPayments => 31,
            Self::CommonStockIssuance => 32,
            Self::NetIssuancePaymentsOfDebt => 33,
            Self::NetShortTermDebtIssuance => 34,
            Self::ShortTermDebtPayments => 35,
            Self::ShortTermDebtIssuance => 36,
            Self::NetLongTermDebtIssuance => 37,
            Self::LongTermDebtPayments => 38,
            Self::LongTermDebtIssuance => 39,
            Self::InvestingCashFlow => 40,
            Self::CashFromDiscontinuedInvestingActivities => 41,
            Self::CashFlowFromContinuingInvestingActivities => 42,
            Self::NetOtherInvestingChanges => 43,
            Self::InterestReceivedCFI => 44,
            Self::DividendsReceivedCFI => 45,
            Self::NetInvestmentPurchaseAndSale => 46,
            Self::SaleOfInvestment => 47,
            Self::PurchaseOfInvestment => 48,
            Self::NetInvestmentPropertiesPurchaseAndSale => 49,
            Self::SaleOfInvestmentProperties => 50,
            Self::PurchaseOfInvestmentProperties => 51,
            Self::NetBusinessPurchaseAndSale => 52,
            Self::SaleOfBusiness => 53,
            Self::PurchaseOfBusiness => 54,
            Self::NetIntangiblesPurchaseAndSale => 55,
            Self::SaleOfIntangibles => 56,
            Self::PurchaseOfIntangibles => 57,
            Self::NetPPEPurchaseAndSale => 58,
            Self::SaleOfPPE => 59,
            Self::PurchaseOfPPE => 60,
            Self::CapitalExpenditureReported => 61,
            Self::OperatingCashFlow => 62,
            Self::CashFromDiscontinuedOperatingActivities => 63,
            Self::CashFlowFromContinuingOperatingActivities => 64,
            Self::TaxesRefundPaid => 65,
            Self::InterestReceivedCFO => 66,
            Self::InterestPaidCFO => 67,
            Self::DividendReceivedCFO => 68,
            Self::DividendPaidCFO => 69,
            Self::ChangeInWorkingCapital => 70,
            Self::ChangeInOtherWorkingCapital => 71,
            Self::ChangeInOtherCurrentLiabilities => 72,
            Self::ChangeInOtherCurrentAssets => 73,
            Self::ChangeInPayablesAndAccruedExpense => 74,
            Self::ChangeInAccruedExpense => 75,
            Self::ChangeInInterestPayable => 76,
            Self::ChangeInPayable => 77,
            Self::ChangeInDividendPayable => 78,
            Self::ChangeInAccountPayable => 79,
            Self::ChangeInTaxPayable => 80,
            Self::ChangeInIncomeTaxPayable => 81,
            Self::ChangeInPrepaidAssets => 82,
            Self::ChangeInInventory => 83,
            Self::ChangeInReceivables => 84,
            Self::ChangesInAccountReceivables => 85,
            Self::OtherNonCashItems => 86,
            Self::ExcessTaxBenefitFromStockBasedCompensation => 87,
            Self::StockBasedCompensation => 88,
            Self::UnrealizedGainLossOnInvestmentSecurities => 89,
            Self::ProvisionandWriteOffofAssets => 90,
            Self::AssetImpairmentCharge => 91,
            Self::AmortizationOfSecurities => 92,
            Self::DeferredTax => 93,
            Self::DeferredIncomeTax => 94,
            Self::DepreciationAmortizationDepletion => 95,
            Self::Depletion => 96,
            Self::DepreciationAndAmortization => 97,
            Self::AmortizationCashFlow => 98,
            Self::AmortizationOfIntangibles => 99,
            Self::Depreciation => 100,
            Self::OperatingGainsLosses => 101,
            Self::PensionAndEmployeeBenefitExpense => 102,
            Self::EarningsLossesFromEquityInvestments => 103,
            Self::GainLossOnInvestmentSecurities => 104,
            Self::NetForeignCurrencyExchangeGainLoss => 105,
            Self::GainLossOnSaleOfPPE => 106,
            Self::GainLossOnSaleOfBusiness => 107,
            Self::NetIncomeFromContinuingOperations => 108,
            Self::CashFlowsfromusedinOperatingActivitiesDirect => 109,
            Self::TaxesRefundPaidDirect => 110,
            Self::InterestReceivedDirect => 111,
            Self::InterestPaidDirect => 112,
            Self::DividendsReceivedDirect => 113,
            Self::DividendsPaidDirect => 114,
            Self::ClassesofCashPayments => 115,
            Self::OtherCashPaymentsfromOperatingActivities => 116,
            Self::PaymentsonBehalfofEmployees => 117,
            Self::PaymentstoSuppliersforGoodsandServices => 118,
            Self::ClassesofCashReceiptsfromOperatingActivities => 119,
            Self::OtherCashReceiptsfromOperatingActivities => 120,
            Self::ReceiptsfromGovernmentGrants => 121,
            Self::ReceiptsfromCustomers => 122,
        }
    }

    /// Name of the item as the service spells it.
    pub open spec fn name(&self) -> Seq<char> {
        match self {
            Self::ForeignSales => "ForeignSales"@,
            Self::DomesticSales => "DomesticSales"@,
            Self::AdjustedGeographySegmentData => "AdjustedGeographySegmentData"@,
            Self::FreeCashFlow => "FreeCashFlow"@,
            Self::RepurchaseOfCapitalStock => "RepurchaseOfCapitalStock"@,
            Self::RepaymentOfDebt => "RepaymentOfDebt"@,
            Self::IssuanceOfDebt => "IssuanceOfDebt"@,
            Self::IssuanceOfCapitalStock => "IssuanceOfCapitalStock"@,
            Self::CapitalExpenditure => "CapitalExpenditure"@,
            Self::InterestPaidSupplementalData => "InterestPaidSupplementalData"@,
            Self::IncomeTaxPaidSupplementalData => "IncomeTaxPaidSupplementalData"@,
            Self::EndCashPosition => "EndCashPosition"@,
            Self::OtherCashAdjustmentOutsideChangeinCash => "OtherCashAdjustmentOutsideChangeinCash"@,
            Self::BeginningCashPosition => "BeginningCashPosition"@,
            Self::EffectOfExchangeRateChanges => "EffectOfExchangeRateChanges"@,
            Self::ChangesInCash => "ChangesInCash"@,
            Self::OtherCashAdjustmentInsideChangeinCash => "OtherCashAdjustmentInsideChangeinCash"@,
            Self::CashFlowFromDiscontinuedOperation => "CashFlowFromDiscontinuedOperation"@,
            Self::FinancingCashFlow => "FinancingCashFlow"@,
            Self::CashFromDiscontinuedFinancingActivities => "CashFromDiscontinuedFinancingActivities"@,
            Self::CashFlowFromContinuingFinancingActivities => "CashFlowFromContinuingFinancingActivities"@,
            Self::NetOtherFinancingCharges => "NetOtherFinancingCharges"@,
            Self::InterestPaidCFF => "InterestPaidCFF"@,
            Self::ProceedsFromStockOptionExercised => "ProceedsFromStockOptionExercised"@,
            Self::CashDividendsPaid => "CashDividendsPaid"@,
            Self::PreferredStockDividendPaid => "PreferredStockDividendPaid"@,
            Self::CommonStockDividendPaid => "CommonStockDividendPaid"@,
            Self::NetPreferredStockIssuance => "NetPreferredStockIssuance"@,
            Self::PreferredStockPayments => "PreferredStockPayments"@,
            Self::PreferredStockIssuance => "PreferredStockIssuance"@,
            Self::NetCommonStockIssuance => "NetCommonStockIssuance"@,
            Self::CommonStockPayments => "CommonStockPayments"@,
            Self::CommonStockIssuance => "CommonStockIssuance"@,
            Self::NetIssuancePaymentsOfDebt => "NetIssuancePaymentsOfDebt"@,
            Self::NetShortTermDebtIssuance => "NetShortTermDebtIssuance"@,
            Self::ShortTermDebtPayments => "ShortTermDebtPayments"@,
            Self::ShortTermDebtIssuance => "ShortTermDebtIssuance"@,
            Self::NetLongTermDebtIssuance => "NetLongTermDebtIssuance"@,
            Self::LongTermDebtPayments => "LongTermDebtPayments"@,
            Self::LongTermDebtIssuance => "LongTermDebtIssuance"@,
            Self::InvestingCashFlow => "InvestingCashFlow"@,
            Self::CashFromDiscontinuedInvestingActivities => "CashFromDiscontinuedInvestingActivities"@,
            Self::CashFlowFromContinuingInvestingActivities => "CashFlowFromContinuingInvestingActivities"@,
            Self::NetOtherInvestingChanges => "NetOtherInvestingChanges"@,
            Self::InterestReceivedCFI => "InterestReceivedCFI"@,
            Self::DividendsReceivedCFI => "DividendsReceivedCFI"@,
            Self::NetInvestmentPurchaseAndSale => "NetInvestmentPurchaseAndSale"@,
            Self::SaleOfInvestment => "SaleOfInvestment"@,
            Self::PurchaseOfInvestment => "PurchaseOfInvestment"@,
            Self::NetInvestmentPropertiesPurchaseAndSale => "NetInvestmentPropertiesPurchaseAndSale"@,
            Self::SaleOfInvestmentProperties => "SaleOfInvestmentProperties"@,
            Self::PurchaseOfInvestmentProperties => "PurchaseOfInvestmentProperties"@,
            Self::NetBusinessPurchaseAndSale => "NetBusinessPurchaseAndSale"@,
            Self::SaleOfBusiness => "SaleOfBusiness"@,
            Self::PurchaseOfBusiness => "PurchaseOfBusiness"@,
            Self::NetIntangiblesPurchaseAndSale => "NetIntangiblesPurchaseAndSale"@,
            Self::SaleOfIntangibles => "SaleOfIntangibles"@,
            Self::PurchaseOfIntangibles => "PurchaseOfIntangibles"@,
            Self::NetPPEPurchaseAndSale => "NetPPEPurchaseAndSale"@,
            Self::SaleOfPPE => "SaleOfPPE"@,
            Self::PurchaseOfPPE => "PurchaseOfPPE"@,
            Self::CapitalExpenditureReported => "CapitalExpenditureReported"@,
            Self::OperatingCashFlow => "OperatingCashFlow"@,
            Self::CashFromDiscontinuedOperatingActivities => "CashFromDiscontinuedOperatingActivities"@,
            Self::CashFlowFromContinuingOperatingActivities => "CashFlowFromContinuingOperatingActivities"@,
            Self::TaxesRefundPaid => "TaxesRefundPaid"@,
            Self::InterestReceivedCFO => "InterestReceivedCFO"@,
            Self::InterestPaidCFO => "InterestPaidCFO"@,
            Self::DividendReceivedCFO => "DividendReceivedCFO"@,
            Self::DividendPaidCFO => "DividendPaidCFO"@,
            Self::ChangeInWorkingCapital => "ChangeInWorkingCapital"@,
            Self::ChangeInOtherWorkingCapital => "ChangeInOtherWorkingCapital"@,
            Self::ChangeInOtherCurrentLiabilities => "ChangeInOtherCurrentLiabilities"@,
            Self::ChangeInOtherCurrentAssets => "ChangeInOtherCurrentAssets"@,
            Self::ChangeInPayablesAndAccruedExpense => "ChangeInPayablesAndAccruedExpense"@,
            Self::ChangeInAccruedExpense => "ChangeInAccruedExpense"@,
            Self::ChangeInInterestPayable => "ChangeInInterestPayable"@,
            Self::ChangeInPayable => "ChangeInPayable"@,
            Self::ChangeInDividendPayable => "ChangeInDividendPayable"@,
            Self::ChangeInAccountPayable => "ChangeInAccountPayable"@,
            Self::ChangeInTaxPayable => "ChangeInTaxPayable"@,
            Self::ChangeInIncomeTaxPayable => "ChangeInIncomeTaxPayable"@,
            Self::ChangeInPrepaidAssets => "ChangeInPrepaidAssets"@,
            Self::ChangeInInventory => "ChangeInInventory"@,
            Self::ChangeInReceivables => "ChangeInReceivables"@,
            Self::ChangesInAccountReceivables => "ChangesInAccountReceivables"@,
            Self::OtherNonCashItems => "OtherNonCashItems"@,
            Self::ExcessTaxBenefitFromStockBasedCompensation => "ExcessTaxBenefitFromStockBasedCompensation"@,
            Self::StockBasedCompensation => "StockBasedCompensation"@,
            Self::UnrealizedGainLossOnInvestmentSecurities => "UnrealizedGainLossOnInvestmentSecurities"@,
            Self::ProvisionandWriteOffofAssets => "ProvisionandWriteOffofAssets"@,
            Self::AssetImpairmentCharge => "AssetImpairmentCharge"@,
            Self::AmortizationOfSecurities => "AmortizationOfSecurities"@,
            Self::DeferredTax => "DeferredTax"@,
            Self::DeferredIncomeTax => "DeferredIncomeTax"@,
            Self::DepreciationAmortizationDepletion => "DepreciationAmortizationDepletion"@,
            Self::Depletion => "Depletion"@,
            Self::DepreciationAndAmortization => "DepreciationAndAmortization"@,
            Self::AmortizationCashFlow => "AmortizationCashFlow"@,
            Self::AmortizationOfIntangibles => "AmortizationOfIntangibles"@,
            Self::Depreciation => "Depreciation"@,
            Self::OperatingGainsLosses => "OperatingGainsLosses"@,
            Self::PensionAndEmployeeBenefitExpense => "PensionAndEmployeeBenefitExpense"@,
            Self::EarningsLossesFromEquityInvestments => "EarningsLossesFromEquityInvestments"@,
            Self::GainLossOnInvestmentSecurities => "GainLossOnInvestmentSecurities"@,
            Self::NetForeignCurrencyExchangeGainLoss => "NetForeignCurrencyExchangeGainLoss"@,
            Self::GainLossOnSaleOfPPE => "GainLossOnSaleOfPPE"@,
            Self::GainLossOnSaleOfBusiness => "GainLossOnSaleOfBusiness"@,
            Self::NetIncomeFromContinuingOperations => "NetIncomeFromContinuingOperations"@,
            Self::CashFlowsfromusedinOperatingActivitiesDirect => "CashFlowsfromusedinOperatingActivitiesDirect"@,
            Self::TaxesRefundPaidDirect => "TaxesRefundPaidDirect"@,
            Self::InterestReceivedDirect => "InterestReceivedDirect"@,
            Self::InterestPaidDirect => "InterestPaidDirect"@,
            Self::DividendsReceivedDirect => "DividendsReceivedDirect"@,
            Self::DividendsPaidDirect => "DividendsPaidDirect"@,
            Self::ClassesofCashPayments => "ClassesofCashPayments"@,
            Self::OtherCashPaymentsfromOperatingActivities => "OtherCashPaymentsfromOperatingActivities"@,
            Self::PaymentsonBehalfofEmployees => "PaymentsonBehalfofEmployees"@,
            Self::PaymentstoSuppliersforGoodsandServices => "PaymentstoSuppliersforGoodsandServices"@,
            Self::ClassesofCashReceiptsfromOperatingActivities => "ClassesofCashReceiptsfromOperatingActivities"@,
            Self::OtherCashReceiptsfromOperatingActivities => "OtherCashReceiptsfromOperatingActivities"@,
            Self::ReceiptsfromGovernmentGrants => "ReceiptsfromGovernmentGrants"@,
            Self::ReceiptsfromCustomers => "ReceiptsfromCustomers"@,
        }
    }

    /// Every cash flow statement item, once each, in the order of declaration.
    pub fn all() -> (facts: &'static [Self])
        ensures
            facts@.len() == Self::count(),
            forall|i: int| 0 <= i < facts@.len() ==> (#[trigger] facts@[i]).position() == i,
            forall|fact: Self| #[trigger] facts@[fact.position() as int] == fact,
    {
        &[
            Self::ForeignSales,
            Self::DomesticSales,
            Self::AdjustedGeographySegmentData,
            Self::FreeCashFlow,
            Self::RepurchaseOfCapitalStock,
            Self::RepaymentOfDebt,
            Self::IssuanceOfDebt,
            Self::IssuanceOfCapitalStock,
            Self::CapitalExpenditure,
            Self::InterestPaidSupplementalData,
            Self::IncomeTaxPaidSupplementalData,
            Self::EndCashPosition,
            Self::OtherCashAdjustmentOutsideChangeinCash,
            Self::BeginningCashPosition,
            Self::EffectOfExchangeRateChanges,
            Self::ChangesInCash,
            Self::OtherCashAdjustmentInsideChangeinCash,
            Self::CashFlowFromDiscontinuedOperation,
            Self::FinancingCashFlow,
            Self::CashFromDiscontinuedFinancingActivities,
            Self::CashFlowFromContinuingFinancingActivities,
            Self::NetOtherFinancingCharges,
            Self::InterestPaidCFF,
            Self::ProceedsFromStockOptionExercised,
            Self::CashDividendsPaid,
            Self::PreferredStockDividendPaid,
            Self::CommonStockDividendPaid,
            Self::NetPreferredStockIssuance,
            Self::PreferredStockPayments,
            Self::PreferredStockIssuance,
            Self::NetCommonStockIssuance,
            Self::CommonStockPayments,
            Self::CommonStockIssuance,
            Self::NetIssuancePaymentsOfDebt,
            Self::NetShortTermDebtIssuance,
            Self::ShortTermDebtPayments,
            Self::ShortTermDebtIssuance,
            Self::NetLongTermDebtIssuance,
            Self::LongTermDebtPayments,
            Self::LongTermDebtIssuance,
            Self::InvestingCashFlow,
            Self::CashFromDiscontinuedInvestingActivities,
            Self::CashFlowFromContinuingInvestingActivities,
            Self::NetOtherInvestingChanges,
            Self::InterestReceivedCFI,
            Self::DividendsReceivedCFI,
            Self::NetInvestmentPurchaseAndSale,
            Self::SaleOfInvestment,
            Self::PurchaseOfInvestment,
            Self::NetInvestmentPropertiesPurchaseAndSale,
            Self::SaleOfInvestmentProperties,
            Self::PurchaseOfInvestmentProperties,
            Self::NetBusinessPurchaseAndSale,
            Self::SaleOfBusiness,
            Self::PurchaseOfBusiness,
            Self::NetIntangiblesPurchaseAndSale,
            Self::SaleOfIntangibles,
            Self::PurchaseOfIntangibles,
            Self::NetPPEPurchaseAndSale,
            Self::SaleOfPPE,
            Self::PurchaseOfPPE,
            Self::CapitalExpenditureReported,
            Self::OperatingCashFlow,
            Self::CashFromDiscontinuedOperatingActivities,
            Self::CashFlowFromContinuingOperatingActivities,
            Self::TaxesRefundPaid,
            Self::InterestReceivedCFO,
            Self::InterestPaidCFO,
            Self::DividendReceivedCFO,
            Self::DividendPaidCFO,
            Self::ChangeInWorkingCapital,
            Self::ChangeInOtherWorkingCapital,
            Self::ChangeInOtherCurrentLiabilities,
            Self::ChangeInOtherCurrentAssets,
            Self::ChangeInPayablesAndAccruedExpense,
            Self::ChangeInAccruedExpense,
            Self::ChangeInInterestPayable,
            Self::ChangeInPayable,
            Self::ChangeInDividendPayable,
            Self::ChangeInAccountPayable,
            Self::ChangeInTaxPayable,
            Self::ChangeInIncomeTaxPayable,
            Self::ChangeInPrepaidAssets,
            Self::ChangeInInventory,
            Self::ChangeInReceivables,
            Self::ChangesInAccountReceivables,
            Self::OtherNonCashItems,
            Self::ExcessTaxBenefitFromStockBasedCompensation,
            Self::StockBasedCompensation,
            Self::UnrealizedGainLossOnInvestmentSecurities,
            Self::ProvisionandWriteOffofAssets,
            Self::AssetImpairmentCharge,
            Self::AmortizationOfSecurities,
            Self::DeferredTax,
            Self::DeferredIncomeTax,
            Self::DepreciationAmortizationDepletion,
            Self::Depletion,
            Self::DepreciationAndAmortization,
            Self::AmortizationCashFlow,
            Self::AmortizationOfIntangibles,
            Self::Depreciation,
            Self::OperatingGainsLosses,
            Self::PensionAndEmployeeBenefitExpense,
            Self::EarningsLossesFromEquityInvestments,
            Self::GainLossOnInvestmentSecurities,
            Self::NetForeignCurrencyExchangeGainLoss,
            Self::GainLossOnSaleOfPPE,
            Self::GainLossOnSaleOfBusiness,
            Self::NetIncomeFromContinuingOperations,
            Self::CashFlowsfromusedinOperatingActivitiesDirect,
            Self::TaxesRefundPaidDirect,
            Self::InterestReceivedDirect,
            Self::InterestPaidDirect,
            Self::DividendsReceivedDirect,
            Self::DividendsPaidDirect,
            Self::ClassesofCashPayments,
            Self::OtherCashPaymentsfromOperatingActivities,
            Self::PaymentsonBehalfofEmployees,
            Self::PaymentstoSuppliersforGoodsandServices,
            Self::ClassesofCashReceiptsfromOperatingActivities,
            Self::OtherCashReceiptsfromOperatingActivities,
            Self::ReceiptsfromGovernmentGrants,
            Self::ReceiptsfromCustomers,
        ]
    }
}

/// No two cash flow statement items go by the same name: two names of one length
/// differ at one of a few places.
pub proof fn lemma_cashflow_names_differ(first: CashflowFact, second: CashflowFact)
    requires
        first.name() == second.name(),
    ensures
        first == second,
{
    reveal_strlit("ForeignSales");
    assert("ForeignSales"@.len() == 12
        && "ForeignSales"@[2] == 'r'
        && "ForeignSales"@[8] == 'a');
    reveal_strlit("DomesticSales");
    assert("DomesticSales"@.len() == 13
        && "DomesticSales"@[2] == 'm'
        && "DomesticSales"@[8] == 'S');
    reveal_strlit("AdjustedGeographySegmentData");
    assert("AdjustedGeographySegmentData"@.len() == 28
        && "AdjustedGeographySegmentData"@[2] == 'j'
        && "AdjustedGeographySegmentData"@[8] == 'G'
        && "AdjustedGeographySegmentData"@[14] == 'p'
        && "AdjustedGeographySegmentData"@[18] == 'e'
        && "AdjustedGeographySegmentData"@[22] == 'n');
    reveal_strlit("FreeCashFlow");
    assert("FreeCashFlow"@.len() == 12
        && "FreeCashFlow"@[2] == 'e'
        && "FreeCashFlow"@[8] == 'F');
    reveal_strlit("RepurchaseOfCapitalStock");
    assert("RepurchaseOfCapitalStock"@.len() == 24
        && "RepurchaseOfCapitalStock"@[2] == 'p'
        && "RepurchaseOfCapitalStock"@[8] == 's'
        && "RepurchaseOfCapitalStock"@[14] == 'p'
        && "RepurchaseOfCapitalStock"@[18] == 'l'
        && "RepurchaseOfCapitalStock"@[22] == 'c');
    reveal_strlit("RepaymentOfDebt");
    assert("RepaymentOfDebt"@.len() == 15
        && "RepaymentOfDebt"@[2] == 'p'
        && "RepaymentOfDebt"@[8] == 't'
        && "RepaymentOfDebt"@[14] == 't');
    reveal_strlit("IssuanceOfDebt");
    assert("IssuanceOfDebt"@.len() == 14
        && "IssuanceOfDebt"@[2] == 's'
        && "IssuanceOfDebt"@[8] == 'O');
    reveal_strlit("IssuanceOfCapitalStock");
    assert("IssuanceOfCapitalStock"@.len() == 22
        && "IssuanceOfCapitalStock"@[2] == 's'
        && "IssuanceOfCapitalStock"@[8] == 'O'
        && "IssuanceOfCapitalStock"@[14] == 't'
        && "IssuanceOfCapitalStock"@[18] == 't');
    reveal_strlit("CapitalExpenditure");
    assert("CapitalExpenditure"@.len() == 18
        && "CapitalExpenditure"@[2] == 'p'
        && "CapitalExpenditure"@[8] == 'x'
        && "CapitalExpenditure"@[14] == 't');
    reveal_strlit("InterestPaidSupplementalData");
    assert("InterestPaidSupplementalData"@.len() == 28
        && "InterestPaidSupplementalData"@[2] == 't'
        && "InterestPaidSupplementalData"@[8] == 'P'
        && "InterestPaidSupplementalData"@[14] == 'p'
        && "InterestPaidSupplementalData"@[18] == 'm'
        && "InterestPaidSupplementalData"@[22] == 'a');
    reveal_strlit("IncomeTaxPaidSupplementalData");
    assert("IncomeTaxPaidSupplementalData"@.len() == 29
        && "IncomeTaxPaidSupplementalData"@[2] == 'c'
        && "IncomeTaxPaidSupplementalData"@[8] == 'x'
        && "IncomeTaxPaidSupplementalData"@[14] == 'u'
        && "IncomeTaxPaidSupplementalData"@[18] == 'e'
        && "IncomeTaxPaidSupplementalData"@[22] == 't');
    reveal_strlit("EndCashPosition");
    assert("EndCashPosition"@.len() == 15
        && "EndCashPosition"@[2] == 'd'
        && "EndCashPosition"@[8] == 'o'
        && "EndCashPosition"@[14] == 'n');
    reveal_strlit("OtherCashAdjustmentOutsideChangeinCash");
    assert("OtherCashAdjustmentOutsideChangeinCash"@.len() == 38
        && "OtherCashAdjustmentOutsideChangeinCash"@[2] == 'h'
        && "OtherCashAdjustmentOutsideChangeinCash"@[8] == 'h'
        && "OtherCashAdjustmentOutsideChangeinCash"@[14] == 't'
        && "OtherCashAdjustmentOutsideChangeinCash"@[18] == 't'
        && "OtherCashAdjustmentOutsideChangeinCash"@[22] == 's');
    reveal_strlit("BeginningCashPosition");
    assert("BeginningCashPosition"@.len() == 21
        && "BeginningCashPosition"@[2] == 'g'
        && "BeginningCashPosition"@[8] == 'g'
        && "BeginningCashPosition"@[14] == 'o'
        && "BeginningCashPosition"@[18] == 'i');
    reveal_strlit("EffectOfExchangeRateChanges");
    assert("EffectOfExchangeRateChanges"@.len() == 27
        && "EffectOfExchangeRateChanges"@[2] == 'f'
        && "EffectOfExchangeRateChanges"@[8] == 'E'
        && "EffectOfExchangeRateChanges"@[14] == 'g'
        && "EffectOfExchangeRateChanges"@[18] == 't'
        && "EffectOfExchangeRateChanges"@[22] == 'a');
    reveal_strlit("ChangesInCash");
    assert("ChangesInCash"@.len() == 13
        && "ChangesInCash"@[2] == 'a'
        && "ChangesInCash"@[8] == 'n');
    reveal_strlit("OtherCashAdjustmentInsideChangeinCash");
    assert("OtherCashAdjustmentInsideChangeinCash"@.len() == 37
        && "OtherCashAdjustmentInsideChangeinCash"@[2] == 'h'
        && "OtherCashAdjustmentInsideChangeinCash"@[8] == 'h'
        && "OtherCashAdjustmentInsideChangeinCash"@[14] == 't'
        && "OtherCashAdjustmentInsideChangeinCash"@[18] == 't'
        && "OtherCashAdjustmentInsideChangeinCash"@[22] == 'i');
    reveal_strlit("CashFlowFromDiscontinuedOperation");
    assert("CashFlowFromDiscontinuedOperation"@.len() == 33
        && "CashFlowFromDiscontinuedOperation"@[2] == 's'
        && "CashFlowFromDiscontinuedOperation"@[8] == 'F'
        && "CashFlowFromDiscontinuedOperation"@[14] == 's'
        && "CashFlowFromDiscontinuedOperation"@[18] == 't'
        && "CashFlowFromDiscontinuedOperation"@[22] == 'e');
    reveal_strlit("FinancingCashFlow");
    assert("FinancingCashFlow"@.len() == 17
        && "FinancingCashFlow"@[2] == 'n'
        && "FinancingCashFlow"@[8] == 'g'
        && "FinancingCashFlow"@[14] == 'l');
    reveal_strlit("CashFromDiscontinuedFinancingActivities");
    assert("CashFromDiscontinuedFinancingActivities"@.len() == 39
        && "CashFromDiscontinuedFinancingActivities"@[2] == 's'
        && "CashFromDiscontinuedFinancingActivities"@[8] == 'D'
        && "CashFromDiscontinuedFinancingActivities"@[14] == 't'
        && "CashFromDiscontinuedFinancingActivities"@[18] == 'e'
        && "CashFromDiscontinuedFinancingActivities"@[22] == 'n');
    reveal_strlit("CashFlowFromContinuingFinancingActivities");
    assert("CashFlowFromContinuingFinancingActivities"@.len() == 41
        && "CashFlowFromContinuingFinancingActivities"@[2] == 's'
        && "CashFlowFromContinuingFinancingActivities"@[8] == 'F'
        && "CashFlowFromContinuingFinancingActivities"@[14] == 'n'
        && "CashFlowFromContinuingFinancingActivities"@[18] == 'u'
        && "CashFlowFromContinuingFinancingActivities"@[22] == 'F');
    reveal_strlit("NetOtherFinancingCharges");
    assert("NetOtherFinancingCharges"@.len() == 24
        && "NetOtherFinancingCharges"@[2] == 't'
        && "NetOtherFinancingCharges"@[8] == 'F'
        && "NetOtherFinancingCharges"@[14] == 'i'
        && "NetOtherFinancingCharges"@[18] == 'h'
        && "NetOtherFinancingCharges"@[22] == 'e');
    reveal_strlit("InterestPaidCFF");
    assert("InterestPaidCFF"@.len() == 15
        && "InterestPaidCFF"@[2] == 't'
        && "InterestPaidCFF"@[8] == 'P'
        && "InterestPaidCFF"@[14] == 'F');
    reveal_strlit("ProceedsFromStockOptionExercised");
    assert("ProceedsFromStockOptionExercised"@.len() == 32
        && "ProceedsFromStockOptionExercised"@[2] == 'o'
        && "ProceedsFromStockOptionExercised"@[8] == 'F'
        && "ProceedsFromStockOptionExercised"@[14] == 'o'
        && "ProceedsFromStockOptionExercised"@[18] == 'p'
        && "ProceedsFromStockOptionExercised"@[22] == 'n');
    reveal_strlit("CashDividendsPaid");
    assert("CashDividendsPaid"@.len() == 17
        && "CashDividendsPaid"@[2] == 's'
        && "CashDividendsPaid"@[8] == 'd'
        && "CashDividendsPaid"@[14] == 'a');
    reveal_strlit("PreferredStockDividendPaid");
    assert("PreferredStockDividendPaid"@.len() == 26
        && "PreferredStockDividendPaid"@[2] == 'e'
        && "PreferredStockDividendPaid"@[8] == 'd'
        && "PreferredStockDividendPaid"@[14] == 'D'
        && "PreferredStockDividendPaid"@[18] == 'd'
        && "PreferredStockDividendPaid"@[22] == 'P');
    reveal_strlit("CommonStockDividendPaid");
    assert("CommonStockDividendPaid"@.len() == 23
        && "CommonStockDividendPaid"@[2] == 'm'
        && "CommonStockDividendPaid"@[8] == 'o'
        && "CommonStockDividendPaid"@[14] == 'i'
        && "CommonStockDividendPaid"@[18] == 'd'
        && "CommonStockDividendPaid"@[22] == 'd');
    reveal_strlit("NetPreferredStockIssuance");
    assert("NetPreferredStockIssuance"@.len() == 25
        && "NetPreferredStockIssuance"@[2] == 't'
        && "NetPreferredStockIssuance"@[8] == 'r'
        && "NetPreferredStockIssuance"@[14] == 'o'
        && "NetPreferredStockIssuance"@[18] == 's'
        && "NetPreferredStockIssuance"@[22] == 'n');
    reveal_strlit("PreferredStockPayments");
    assert("PreferredStockPayments"@.len() == 22
        && "PreferredStockPayments"@[2] == 'e'
        && "PreferredStockPayments"@[8] == 'd'
        && "PreferredStockPayments"@[14] == 'P'
        && "PreferredStockPayments"@[18] == 'e');
    reveal_strlit("PreferredStockIssuance");
    assert("PreferredStockIssuance"@.len() == 22
        && "PreferredStockIssuance"@[2] == 'e'
        && "PreferredStockIssuance"@[8] == 'd'
        && "PreferredStockIssuance"@[14] == 'I'
        && "PreferredStockIssuance"@[18] == 'a');
    reveal_strlit("NetCommonStockIssuance");
    assert("NetCommonStockIssuance"@.len() == 22
        && "NetCommonStockIssuance"@[2] == 't'
        && "NetCommonStockIssuance"@[8] == 'n'
        && "NetCommonStockIssuance"@[14] == 'I'
        && "NetCommonStockIssuance"@[18] == 'a');
    reveal_strlit("CommonStockPayments");
    assert("CommonStockPayments"@.len() == 19
        && "CommonStockPayments"@[2] == 'm'
        && "CommonStockPayments"@[8] == 'o'
        && "CommonStockPayments"@[14] == 'm'
        && "CommonStockPayments"@[18] == 's');
    reveal_strlit("CommonStockIssuance");
    assert("CommonStockIssuance"@.len() == 19
        && "CommonStockIssuance"@[2] == 'm'
        && "CommonStockIssuance"@[8] == 'o'
        && "CommonStockIssuance"@[14] == 'u'
        && "CommonStockIssuance"@[18] == 'e');
    reveal_strlit("NetIssuancePaymentsOfDebt");
    assert("NetIssuancePaymentsOfDebt"@.len() == 25
        && "NetIssuancePaymentsOfDebt"@[2] == 't'
        && "NetIssuancePaymentsOfDebt"@[8] == 'n'
        && "NetIssuancePaymentsOfDebt"@[14] == 'm'
        && "NetIssuancePaymentsOfDebt"@[18] == 's'
        && "NetIssuancePaymentsOfDebt"@[22] == 'e');
    reveal_strlit("NetShortTermDebtIssuance");
    assert("NetShortTermDebtIssuance"@.len() == 24
        && "NetShortTermDebtIssuance"@[2] == 't'
        && "NetShortTermDebtIssuance"@[8] == 'T'
        && "NetShortTermDebtIssuance"@[14] == 'b'
        && "NetShortTermDebtIssuance"@[18] == 's'
        && "NetShortTermDebtIssuance"@[22] == 'c');
    reveal_strlit("ShortTermDebtPayments");
    assert("ShortTermDebtPayments"@.len() == 21
        && "ShortTermDebtPayments"@[2] == 'o'
        && "ShortTermDebtPayments"@[8] == 'm'
        && "ShortTermDebtPayments"@[14] == 'a'
        && "ShortTermDebtPayments"@[18] == 'n');
    reveal_strlit("ShortTermDebtIssuance");
    assert("ShortTermDebtIssuance"@.len() == 21
        && "ShortTermDebtIssuance"@[2] == 'o'
        && "ShortTermDebtIssuance"@[8] == 'm'
        && "ShortTermDebtIssuance"@[14] == 's'
        && "ShortTermDebtIssuance"@[18] == 'n');
    reveal_strlit("NetLongTermDebtIssuance");
    assert("NetLongTermDebtIssuance"@.len() == 23
        && "NetLongTermDebtIssuance"@[2] == 't'
        && "NetLongTermDebtIssuance"@[8] == 'e'
        && "NetLongTermDebtIssuance"@[14] == 't'
        && "NetLongTermDebtIssuance"@[18] == 'u'
        && "NetLongTermDebtIssuance"@[22] == 'e');
    reveal_strlit("LongTermDebtPayments");
    assert("LongTermDebtPayments"@.len() == 20
        && "LongTermDebtPayments"@[2] == 'n'
        && "LongTermDebtPayments"@[8] == 'D'
        && "LongTermDebtPayments"@[14] == 'y'
        && "LongTermDebtPayments"@[18] == 't');
    reveal_strlit("LongTermDebtIssuance");
    assert("LongTermDebtIssuance"@.len() == 20
        && "LongTermDebtIssuance"@[2] == 'n'
        && "LongTermDebtIssuance"@[8] == 'D'
        && "LongTermDebtIssuance"@[14] == 's'
        && "LongTermDebtIssuance"@[18] == 'c');
    reveal_strlit("InvestingCashFlow");
    assert("InvestingCashFlow"@.len() == 17
        && "InvestingCashFlow"@[2] == 'v'
        && "InvestingCashFlow"@[8] == 'g'
        && "InvestingCashFlow"@[14] == 'l');
    reveal_strlit("CashFromDiscontinuedInvestingActivities");
    assert("CashFromDiscontinuedInvestingActivities"@.len() == 39
        && "CashFromDiscontinuedInvestingActivities"@[2] == 's'
        && "CashFromDiscontinuedInvestingActivities"@[8] == 'D'
        && "CashFromDiscontinuedInvestingActivities"@[14] == 't'
        && "CashFromDiscontinuedInvestingActivities"@[18] == 'e'
        && "CashFromDiscontinuedInvestingActivities"@[22] == 'v');
    reveal_strlit("CashFlowFromContinuingInvestingActivities");
    assert("CashFlowFromContinuingInvestingActivities"@.len() == 41
        && "CashFlowFromContinuingInvestingActivities"@[2] == 's'
        && "CashFlowFromContinuingInvestingActivities"@[8] == 'F'
        && "CashFlowFromContinuingInvestingActivities"@[14] == 'n'
        && "CashFlowFromContinuingInvestingActivities"@[18] == 'u'
        && "CashFlowFromContinuingInvestingActivities"@[22] == 'I');
    reveal_strlit("NetOtherInvestingChanges");
    assert("NetOtherInvestingChanges"@.len() == 24
        && "NetOtherInvestingChanges"@[2] == 't'
        && "NetOtherInvestingChanges"@[8] == 'I'
        && "NetOtherInvestingChanges"@[14] == 'i'
        && "NetOtherInvestingChanges"@[18] == 'h'
        && "NetOtherInvestingChanges"@[22] == 'e');
    reveal_strlit("InterestReceivedCFI");
    assert("InterestReceivedCFI"@.len() == 19
        && "InterestReceivedCFI"@[2] == 't'
        && "InterestReceivedCFI"@[8] == 'R'
        && "InterestReceivedCFI"@[14] == 'e'
        && "InterestReceivedCFI"@[18] == 'I');
    reveal_strlit("DividendsReceivedCFI");
    assert("DividendsReceivedCFI"@.len() == 20
        && "DividendsReceivedCFI"@[2] == 'v'
        && "DividendsReceivedCFI"@[8] == 's'
        && "DividendsReceivedCFI"@[14] == 'v'
        && "DividendsReceivedCFI"@[18] == 'F');
    reveal_strlit("NetInvestmentPurchaseAndSale");
    assert("NetInvestmentPurchaseAndSale"@.len() == 28
        && "NetInvestmentPurchaseAndSale"@[2] == 't'
        && "NetInvestmentPurchaseAndSale"@[8] == 't'
        && "NetInvestmentPurchaseAndSale"@[14] == 'u'
        && "NetInvestmentPurchaseAndSale"@[18] == 'a'
        && "NetInvestmentPurchaseAndSale"@[22] == 'n');
    reveal_strlit("SaleOfInvestment");
    assert("SaleOfInvestment"@.len() == 16
        && "SaleOfInvestment"@[2] == 'l'
        && "SaleOfInvestment"@[8] == 'v'
        && "SaleOfInvestment"@[14] == 'n');
    reveal_strlit("PurchaseOfInvestment");
    assert("PurchaseOfInvestment"@.len() == 20
        && "PurchaseOfInvestment"@[2] == 'r'
        && "PurchaseOfInvestment"@[8] == 'O'
        && "PurchaseOfInvestment"@[14] == 's'
        && "PurchaseOfInvestment"@[18] == 'n');
    reveal_strlit("NetInvestmentPropertiesPurchaseAndSale");
    assert("NetInvestmentPropertiesPurchaseAndSale"@.len() == 38
        && "NetInvestmentPropertiesPurchaseAndSale"@[2] == 't'
        && "NetInvestmentPropertiesPurchaseAndSale"@[8] == 't'
        && "NetInvestmentPropertiesPurchaseAndSale"@[14] == 'r'
        && "NetInvestmentPropertiesPurchaseAndSale"@[18] == 'r'
        && "NetInvestmentPropertiesPurchaseAndSale"@[22] == 's');
    reveal_strlit("SaleOfInvestmentProperties");
    assert("SaleOfInvestmentProperties"@.len() == 26
        && "SaleOfInvestmentProperties"@[2] == 'l'
        && "SaleOfInvestmentProperties"@[8] == 'v'
        && "SaleOfInvestmentProperties"@[14] == 'n'
        && "SaleOfInvestmentProperties"@[18] == 'o'
        && "SaleOfInvestmentProperties"@[22] == 't');
    reveal_strlit("PurchaseOfInvestmentProperties");
    assert("PurchaseOfInvestmentProperties"@.len() == 30
        && "PurchaseOfInvestmentProperties"@[2] == 'r'
        && "PurchaseOfInvestmentProperties"@[8] == 'O'
        && "PurchaseOfInvestmentProperties"@[14] == 's'
        && "PurchaseOfInvestmentProperties"@[18] == 'n'
        && "PurchaseOfInvestmentProperties"@[22] == 'o');
    reveal_strlit("NetBusinessPurchaseAndSale");
    assert("NetBusinessPurchaseAndSale"@.len() == 26
        && "NetBusinessPurchaseAndSale"@[2] == 't'
        && "NetBusinessPurchaseAndSale"@[8] == 'e'
        && "NetBusinessPurchaseAndSale"@[14] == 'c'
        && "NetBusinessPurchaseAndSale"@[18] == 'e'
        && "NetBusinessPurchaseAndSale"@[22] == 'S');
    reveal_strlit("SaleOfBusiness");
    assert("SaleOfBusiness"@.len() == 14
        && "SaleOfBusiness"@[2] == 'l'
        && "SaleOfBusiness"@[8] == 's');
    reveal_strlit("PurchaseOfBusiness");
    assert("PurchaseOfBusiness"@.len() == 18
        && "PurchaseOfBusiness"@[2] == 'r'
        && "PurchaseOfBusiness"@[8] == 'O'
        && "PurchaseOfBusiness"@[14] == 'n');
    reveal_strlit("NetIntangiblesPurchaseAndSale");
    assert("NetIntangiblesPurchaseAndSale"@.len() == 29
        && "NetIntangiblesPurchaseAndSale"@[2] == 't'
        && "NetIntangiblesPurchaseAndSale"@[8] == 'g'
        && "NetIntangiblesPurchaseAndSale"@[14] == 'P'
        && "NetIntangiblesPurchaseAndSale"@[18] == 'h'
        && "NetIntangiblesPurchaseAndSale"@[22] == 'A');
    reveal_strlit("SaleOfIntangibles");
    assert("SaleOfIntangibles"@.len() == 17
        && "SaleOfIntangibles"@[2] == 'l'
        && "SaleOfIntangibles"@[8] == 't'
        && "SaleOfIntangibles"@[14] == 'l');
    reveal_strlit("PurchaseOfIntangibles");
    assert("PurchaseOfIntangibles"@.len() == 21
        && "PurchaseOfIntangibles"@[2] == 'r'
        && "PurchaseOfIntangibles"@[8] == 'O'
        && "PurchaseOfIntangibles"@[14] == 'n'
        && "PurchaseOfIntangibles"@[18] == 'l');
    reveal_strlit("NetPPEPurchaseAndSale");
    assert("NetPPEPurchaseAndSale"@.len() == 21
        && "NetPPEPurchaseAndSale"@[2] == 't'
        && "NetPPEPurchaseAndSale"@[8] == 'r'
        && "NetPPEPurchaseAndSale"@[14] == 'A'
        && "NetPPEPurchaseAndSale"@[18] == 'a');
    reveal_strlit("SaleOfPPE");
    assert("SaleOfPPE"@.len() == 9
        && "SaleOfPPE"@[2] == 'l'
        && "SaleOfPPE"@[8] == 'E');
    reveal_strlit("PurchaseOfPPE");
    assert("PurchaseOfPPE"@.len() == 13
        && "PurchaseOfPPE"@[2] == 'r'
        && "PurchaseOfPPE"@[8] == 'O');
    reveal_strlit("CapitalExpenditureReported");
    assert("CapitalExpenditureReported"@.len() == 26
        && "CapitalExpenditureReported"@[2] == 'p'
        && "CapitalExpenditureReported"@[8] == 'x'
        && "CapitalExpenditureReported"@[14] == 't'
        && "CapitalExpenditureReported"@[18] == 'R'
        && "CapitalExpenditureReported"@[22] == 'r');
    reveal_strlit("OperatingCashFlow");
    assert("OperatingCashFlow"@.len() == 17
        && "OperatingCashFlow"@[2] == 'e'
        && "OperatingCashFlow"@[8] == 'g'
        && "OperatingCashFlow"@[14] == 'l');
    reveal_strlit("CashFromDiscontinuedOperatingActivities");
    assert("CashFromDiscontinuedOperatingActivities"@.len() == 39
        && "CashFromDiscontinuedOperatingActivities"@[2] == 's'
        && "CashFromDiscontinuedOperatingActivities"@[8] == 'D'
        && "CashFromDiscontinuedOperatingActivities"@[14] == 't'
        && "CashFromDiscontinuedOperatingActivities"@[18] == 'e'
        && "CashFromDiscontinuedOperatingActivities"@[22] == 'e');
    reveal_strlit("CashFlowFromContinuingOperatingActivities");
    assert("CashFlowFromContinuingOperatingActivities"@.len() == 41
        && "CashFlowFromContinuingOperatingActivities"@[2] == 's'
        && "CashFlowFromContinuingOperatingActivities"@[8] == 'F'
        && "CashFlowFromContinuingOperatingActivities"@[14] == 'n'
        && "CashFlowFromContinuingOperatingActivities"@[18] == 'u'
        && "CashFlowFromContinuingOperatingActivities"@[22] == 'O');
    reveal_strlit("TaxesRefundPaid");
    assert("TaxesRefundPaid"@.len() == 15
        && "TaxesRefundPaid"@[2] == 'x'
        && "TaxesRefundPaid"@[8] == 'u'
        && "TaxesRefundPaid"@[14] == 'd');
    reveal_strlit("InterestReceivedCFO");
    assert("InterestReceivedCFO"@.len() == 19
        && "InterestReceivedCFO"@[2] == 't'
        && "InterestReceivedCFO"@[8] == 'R'
        && "InterestReceivedCFO"@[14] == 'e'
        && "InterestReceivedCFO"@[18] == 'O');
    reveal_strlit("InterestPaidCFO");
    assert("InterestPaidCFO"@.len() == 15
        && "InterestPaidCFO"@[2] == 't'
        && "InterestPaidCFO"@[8] == 'P'
        && "InterestPaidCFO"@[14] == 'O');
    reveal_strlit("DividendReceivedCFO");
    assert("DividendReceivedCFO"@.len() == 19
        && "DividendReceivedCFO"@[2] == 'v'
        && "DividendReceivedCFO"@[8] == 'R'
        && "DividendReceivedCFO"@[14] == 'e'
        && "DividendReceivedCFO"@[18] == 'O');
    reveal_strlit("DividendPaidCFO");
    assert("DividendPaidCFO"@.len() == 15
        && "DividendPaidCFO"@[2] == 'v'
        && "DividendPaidCFO"@[8] == 'P'
        && "DividendPaidCFO"@[14] == 'O');
    reveal_strlit("ChangeInWorkingCapital");
    assert("ChangeInWorkingCapital"@.len() == 22
        && "ChangeInWorkingCapital"@[2] == 'a'
        && "ChangeInWorkingCapital"@[8] == 'W'
        && "ChangeInWorkingCapital"@[14] == 'g'
        && "ChangeInWorkingCapital"@[18] == 'i');
    reveal_strlit("ChangeInOtherWorkingCapital");
    assert("ChangeInOtherWorkingCapital"@.len() == 27
        && "ChangeInOtherWorkingCapital"@[2] == 'a'
        && "ChangeInOtherWorkingCapital"@[8] == 'O'
        && "ChangeInOtherWorkingCapital"@[14] == 'o'
        && "ChangeInOtherWorkingCapital"@[18] == 'n'
        && "ChangeInOtherWorkingCapital"@[22] == 'p');
    reveal_strlit("ChangeInOtherCurrentLiabilities");
    assert("ChangeInOtherCurrentLiabilities"@.len() == 31
        && "ChangeInOtherCurrentLiabilities"@[2] == 'a'
        && "ChangeInOtherCurrentLiabilities"@[8] == 'O'
        && "ChangeInOtherCurrentLiabilities"@[14] == 'u'
        && "ChangeInOtherCurrentLiabilities"@[18] == 'n'
        && "ChangeInOtherCurrentLiabilities"@[22] == 'a');
    reveal_strlit("ChangeInOtherCurrentAssets");
    assert("ChangeInOtherCurrentAssets"@.len() == 26
        && "ChangeInOtherCurrentAssets"@[2] == 'a'
        && "ChangeInOtherCurrentAssets"@[8] == 'O'
        && "ChangeInOtherCurrentAssets"@[14] == 'u'
        && "ChangeInOtherCurrentAssets"@[18] == 'n'
        && "ChangeInOtherCurrentAssets"@[22] == 's');
    reveal_strlit("ChangeInPayablesAndAccruedExpense");
    assert("ChangeInPayablesAndAccruedExpense"@.len() == 33
        && "ChangeInPayablesAndAccruedExpense"@[2] == 'a'
        && "ChangeInPayablesAndAccruedExpense"@[8] == 'P'
        && "ChangeInPayablesAndAccruedExpense"@[14] == 'e'
        && "ChangeInPayablesAndAccruedExpense"@[18] == 'd'
        && "ChangeInPayablesAndAccruedExpense"@[22] == 'r');
    reveal_strlit("ChangeInAccruedExpense");
    assert("ChangeInAccruedExpense"@.len() == 22
        && "ChangeInAccruedExpense"@[2] == 'a'
        && "ChangeInAccruedExpense"@[8] == 'A'
        && "ChangeInAccruedExpense"@[14] == 'd'
        && "ChangeInAccruedExpense"@[18] == 'e');
    reveal_strlit("ChangeInInterestPayable");
    assert("ChangeInInterestPayable"@.len() == 23
        && "ChangeInInterestPayable"@[2] == 'a'
        && "ChangeInInterestPayable"@[8] == 'I'
        && "ChangeInInterestPayable"@[14] == 's'
        && "ChangeInInterestPayable"@[18] == 'y'
        && "ChangeInInterestPayable"@[22] == 'e');
    reveal_strlit("ChangeInPayable");
    assert("ChangeInPayable"@.len() == 15
        && "ChangeInPayable"@[2] == 'a'
        && "ChangeInPayable"@[8] == 'P'
        && "ChangeInPayable"@[14] == 'e');
    reveal_strlit("ChangeInDividendPayable");
    assert("ChangeInDividendPayable"@.len() == 23
        && "ChangeInDividendPayable"@[2] == 'a'
        && "ChangeInDividendPayable"@[8] == 'D'
        && "ChangeInDividendPayable"@[14] == 'n'
        && "ChangeInDividendPayable"@[18] == 'y'
        && "ChangeInDividendPayable"@[22] == 'e');
    reveal_strlit("ChangeInAccountPayable");
    assert("ChangeInAccountPayable"@.len() == 22
        && "ChangeInAccountPayable"@[2] == 'a'
        && "ChangeInAccountPayable"@[8] == 'A'
        && "ChangeInAccountPayable"@[14] == 't'
        && "ChangeInAccountPayable"@[18] == 'a');
    reveal_strlit("ChangeInTaxPayable");
    assert("ChangeInTaxPayable"@.len() == 18
        && "ChangeInTaxPayable"@[2] == 'a'
        && "ChangeInTaxPayable"@[8] == 'T'
        && "ChangeInTaxPayable"@[14] == 'a');
    reveal_strlit("ChangeInIncomeTaxPayable");
    assert("ChangeInIncomeTaxPayable"@.len() == 24
        && "ChangeInIncomeTaxPayable"@[2] == 'a'
        && "ChangeInIncomeTaxPayable"@[8] == 'I'
        && "ChangeInIncomeTaxPayable"@[14] == 'T'
        && "ChangeInIncomeTaxPayable"@[18] == 'a'
        && "ChangeInIncomeTaxPayable"@[22] == 'l');
    reveal_strlit("ChangeInPrepaidAssets");
    assert("ChangeInPrepaidAssets"@.len() == 21
        && "ChangeInPrepaidAssets"@[2] == 'a'
        && "ChangeInPrepaidAssets"@[8] == 'P'
        && "ChangeInPrepaidAssets"@[14] == 'd'
        && "ChangeInPrepaidAssets"@[18] == 'e');
    reveal_strlit("ChangeInInventory");
    assert("ChangeInInventory"@.len() == 17
        && "ChangeInInventory"@[2] == 'a'
        && "ChangeInInventory"@[8] == 'I'
        && "ChangeInInventory"@[14] == 'o');
    reveal_strlit("ChangeInReceivables");
    assert("ChangeInReceivables"@.len() == 19
        && "ChangeInReceivables"@[2] == 'a'
        && "ChangeInReceivables"@[8] == 'R'
        && "ChangeInReceivables"@[14] == 'a'
        && "ChangeInReceivables"@[18] == 's');
    reveal_strlit("ChangesInAccountReceivables");
    assert("ChangesInAccountReceivables"@.len() == 27
        && "ChangesInAccountReceivables"@[2] == 'a'
        && "ChangesInAccountReceivables"@[8] == 'n'
        && "ChangesInAccountReceivables"@[14] == 'n'
        && "ChangesInAccountReceivables"@[18] == 'c'
        && "ChangesInAccountReceivables"@[22] == 'a');
    reveal_strlit("OtherNonCashItems");
    assert("OtherNonCashItems"@.len() == 17
        && "OtherNonCashItems"@[2] == 'h'
        && "OtherNonCashItems"@[8] == 'C'
        && "OtherNonCashItems"@[14] == 'e');
    reveal_strlit("ExcessTaxBenefitFromStockBasedCompensation");
    assert("ExcessTaxBenefitFromStockBasedCompensation"@.len() == 42
        && "ExcessTaxBenefitFromStockBasedCompensation"@[2] == 'c'
        && "ExcessTaxBenefitFromStockBasedCompensation"@[8] == 'x'
        && "ExcessTaxBenefitFromStockBasedCompensation"@[14] == 'i'
        && "ExcessTaxBenefitFromStockBasedCompensation"@[18] == 'o'
        && "ExcessTaxBenefitFromStockBasedCompensation"@[22] == 'o');
    reveal_strlit("StockBasedCompensation");
    assert("StockBasedCompensation"@.len() == 22
        && "StockBasedCompensation"@[2] == 'o'
        && "StockBasedCompensation"@[8] == 'e'
        && "StockBasedCompensation"@[14] == 'e'
        && "StockBasedCompensation"@[18] == 't');
    reveal_strlit("UnrealizedGainLossOnInvestmentSecurities");
    assert("UnrealizedGainLossOnInvestmentSecurities"@.len() == 40
        && "UnrealizedGainLossOnInvestmentSecurities"@[2] == 'r'
        && "UnrealizedGainLossOnInvestmentSecurities"@[8] == 'e'
        && "UnrealizedGainLossOnInvestmentSecurities"@[14] == 'L'
        && "UnrealizedGainLossOnInvestmentSecurities"@[18] == 'O'
        && "UnrealizedGainLossOnInvestmentSecurities"@[22] == 'v');
    reveal_strlit("ProvisionandWriteOffofAssets");
    assert("ProvisionandWriteOffofAssets"@.len() == 28
        && "ProvisionandWriteOffofAssets"@[2] == 'o'
        && "ProvisionandWriteOffofAssets"@[8] == 'n'
        && "ProvisionandWriteOffofAssets"@[14] == 'i'
        && "ProvisionandWriteOffofAssets"@[18] == 'f'
        && "ProvisionandWriteOffofAssets"@[22] == 'A');
    reveal_strlit("AssetImpairmentCharge");
    assert("AssetImpairmentCharge"@.len() == 21
        && "AssetImpairmentCharge"@[2] == 's'
        && "AssetImpairmentCharge"@[8] == 'a'
        && "AssetImpairmentCharge"@[14] == 't'
        && "AssetImpairmentCharge"@[18] == 'r');
    reveal_strlit("AmortizationOfSecurities");
    assert("AmortizationOfSecurities"@.len() == 24
        && "AmortizationOfSecurities"@[2] == 'o'
        && "AmortizationOfSecurities"@[8] == 't'
        && "AmortizationOfSecurities"@[14] == 'S'
        && "AmortizationOfSecurities"@[18] == 'r'
        && "AmortizationOfSecurities"@[22] == 'e');
    reveal_strlit("DeferredTax");
    assert("DeferredTax"@.len() == 11
        && "DeferredTax"@[2] == 'f'
        && "DeferredTax"@[8] == 'T');
    reveal_strlit("DeferredIncomeTax");
    assert("DeferredIncomeTax"@.len() == 17
        && "DeferredIncomeTax"@[2] == 'f'
        && "DeferredIncomeTax"@[8] == 'I'
        && "DeferredIncomeTax"@[14] == 'T');
    reveal_strlit("DepreciationAmortizationDepletion");
    assert("DepreciationAmortizationDepletion"@.len() == 33
        && "DepreciationAmortizationDepletion"@[2] == 'p'
        && "DepreciationAmortizationDepletion"@[8] == 't'
        && "DepreciationAmortizationDepletion"@[14] == 'o'
        && "DepreciationAmortizationDepletion"@[18] == 'z'
        && "DepreciationAmortizationDepletion"@[22] == 'o');
    reveal_strlit("Depletion");
    assert("Depletion"@.len() == 9
        && "Depletion"@[2] == 'p'
        && "Depletion"@[8] == 'n');
    reveal_strlit("DepreciationAndAmortization");
    assert("DepreciationAndAmortization"@.len() == 27
        && "DepreciationAndAmortization"@[2] == 'p'
        && "DepreciationAndAmortization"@[8] == 't'
        && "DepreciationAndAmortization"@[14] == 'd'
        && "DepreciationAndAmortization"@[18] == 'r'
        && "DepreciationAndAmortization"@[22] == 'a');
    reveal_strlit("AmortizationCashFlow");
    assert("AmortizationCashFlow"@.len() == 20
        && "AmortizationCashFlow"@[2] == 'o'
        && "AmortizationCashFlow"@[8] == 't'
        && "AmortizationCashFlow"@[14] == 's'
        && "AmortizationCashFlow"@[18] == 'o');
    reveal_strlit("AmortizationOfIntangibles");
    assert("AmortizationOfIntangibles"@.len() == 25
        && "AmortizationOfIntangibles"@[2] == 'o'
        && "AmortizationOfIntangibles"@[8] == 't'
        && "AmortizationOfIntangibles"@[14] == 'I'
        && "AmortizationOfIntangibles"@[18] == 'n'
        && "AmortizationOfIntangibles"@[22] == 'l');
    reveal_strlit("Depreciation");
    assert("Depreciation"@.len() == 12
        && "Depreciation"@[2] == 'p'
        && "Depreciation"@[8] == 't');
    reveal_strlit("OperatingGainsLosses");
    assert("OperatingGainsLosses"@.len() == 20
        && "OperatingGainsLosses"@[2] == 'e'
        && "OperatingGainsLosses"@[8] == 'g'
        && "OperatingGainsLosses"@[14] == 'L'
        && "OperatingGainsLosses"@[18] == 'e');
    reveal_strlit("PensionAndEmployeeBenefitExpense");
    assert("PensionAndEmployeeBenefitExpense"@.len() == 32
        && "PensionAndEmployeeBenefitExpense"@[2] == 'n'
        && "PensionAndEmployeeBenefitExpense"@[8] == 'n'
        && "PensionAndEmployeeBenefitExpense"@[14] == 'o'
        && "PensionAndEmployeeBenefitExpense"@[18] == 'B'
        && "PensionAndEmployeeBenefitExpense"@[22] == 'f');
    reveal_strlit("EarningsLossesFromEquityInvestments");
    assert("EarningsLossesFromEquityInvestments"@.len() == 35
        && "EarningsLossesFromEquityInvestments"@[2] == 'r'
        && "EarningsLossesFromEquityInvestments"@[8] == 'L'
        && "EarningsLossesFromEquityInvestments"@[14] == 'F'
        && "EarningsLossesFromEquityInvestments"@[18] == 'E'
        && "EarningsLossesFromEquityInvestments"@[22] == 't');
    reveal_strlit("GainLossOnInvestmentSecurities");
    assert("GainLossOnInvestmentSecurities"@.len() == 30
        && "GainLossOnInvestmentSecurities"@[2] == 'i'
        && "GainLossOnInvestmentSecurities"@[8] == 'O'
        && "GainLossOnInvestmentSecurities"@[14] == 's'
        && "GainLossOnInvestmentSecurities"@[18] == 'n'
        && "GainLossOnInvestmentSecurities"@[22] == 'c');
    reveal_strlit("NetForeignCurrencyExchangeGainLoss");
    assert("NetForeignCurrencyExchangeGainLoss"@.len() == 34
        && "NetForeignCurrencyExchangeGainLoss"@[2] == 't'
        && "NetForeignCurrencyExchangeGainLoss"@[8] == 'g'
        && "NetForeignCurrencyExchangeGainLoss"@[14] == 'e'
        && "NetForeignCurrencyExchangeGainLoss"@[18] == 'E'
        && "NetForeignCurrencyExchangeGainLoss"@[22] == 'a');
    reveal_strlit("GainLossOnSaleOfPPE");
    assert("GainLossOnSaleOfPPE"@.len() == 19
        && "GainLossOnSaleOfPPE"@[2] == 'i'
        && "GainLossOnSaleOfPPE"@[8] == 'O'
        && "GainLossOnSaleOfPPE"@[14] == 'O'
        && "GainLossOnSaleOfPPE"@[18] == 'E');
    reveal_strlit("GainLossOnSaleOfBusiness");
    assert("GainLossOnSaleOfBusiness"@.len() == 24
        && "GainLossOnSaleOfBusiness"@[2] == 'i'
        && "GainLossOnSaleOfBusiness"@[8] == 'O'
        && "GainLossOnSaleOfBusiness"@[14] == 'O'
        && "GainLossOnSaleOfBusiness"@[18] == 's'
        && "GainLossOnSaleOfBusiness"@[22] == 's');
    reveal_strlit("NetIncomeFromContinuingOperations");
    assert("NetIncomeFromContinuingOperations"@.len() == 33
        && "NetIncomeFromContinuingOperations"@[2] == 't'
        && "NetIncomeFromContinuingOperations"@[8] == 'e'
        && "NetIncomeFromContinuingOperations"@[14] == 'o'
        && "NetIncomeFromContinuingOperations"@[18] == 'n'
        && "NetIncomeFromContinuingOperations"@[22] == 'g');
    reveal_strlit("CashFlowsfromusedinOperatingActivitiesDirect");
    assert("CashFlowsfromusedinOperatingActivitiesDirect"@.len() == 44
        && "CashFlowsfromusedinOperatingActivitiesDirect"@[2] == 's'
        && "CashFlowsfromusedinOperatingActivitiesDirect"@[8] == 's'
        && "CashFlowsfromusedinOperatingActivitiesDirect"@[14] == 's'
        && "CashFlowsfromusedinOperatingActivitiesDirect"@[18] == 'n'
        && "CashFlowsfromusedinOperatingActivitiesDirect"@[22] == 'r');
    reveal_strlit("TaxesRefundPaidDirect");
    assert("TaxesRefundPaidDirect"@.len() == 21
        && "TaxesRefundPaidDirect"@[2] == 'x'
        && "TaxesRefundPaidDirect"@[8] == 'u'
        && "TaxesRefundPaidDirect"@[14] == 'd'
        && "TaxesRefundPaidDirect"@[18] == 'e');
    reveal_strlit("InterestReceivedDirect");
    assert("InterestReceivedDirect"@.len() == 22
        && "InterestReceivedDirect"@[2] == 't'
        && "InterestReceivedDirect"@[8] == 'R'
        && "InterestReceivedDirect"@[14] == 'e'
        && "InterestReceivedDirect"@[18] == 'r');
    reveal_strlit("InterestPaidDirect");
    assert("InterestPaidDirect"@.len() == 18
        && "InterestPaidDirect"@[2] == 't'
        && "InterestPaidDirect"@[8] == 'P'
        && "InterestPaidDirect"@[14] == 'r');
    reveal_strlit("DividendsReceivedDirect");
    assert("DividendsReceivedDirect"@.len() == 23
        && "DividendsReceivedDirect"@[2] == 'v'
        && "DividendsReceivedDirect"@[8] == 's'
        && "DividendsReceivedDirect"@[14] == 'v'
        && "DividendsReceivedDirect"@[18] == 'i'
        && "DividendsReceivedDirect"@[22] == 't');
    reveal_strlit("DividendsPaidDirect");
    assert("DividendsPaidDirect"@.len() == 19
        && "DividendsPaidDirect"@[2] == 'v'
        && "DividendsPaidDirect"@[8] == 's'
        && "DividendsPaidDirect"@[14] == 'i'
        && "DividendsPaidDirect"@[18] == 't');
    reveal_strlit("ClassesofCashPayments");
    assert("ClassesofCashPayments"@.len() == 21
        && "ClassesofCashPayments"@[2] == 'a'
        && "ClassesofCashPayments"@[8] == 'f'
        && "ClassesofCashPayments"@[14] == 'a'
        && "ClassesofCashPayments"@[18] == 'n');
    reveal_strlit("OtherCashPaymentsfromOperatingActivities");
    assert("OtherCashPaymentsfromOperatingActivities"@.len() == 40
        && "OtherCashPaymentsfromOperatingActivities"@[2] == 'h'
        && "OtherCashPaymentsfromOperatingActivities"@[8] == 'h'
        && "OtherCashPaymentsfromOperatingActivities"@[14] == 'n'
        && "OtherCashPaymentsfromOperatingActivities"@[18] == 'r'
        && "OtherCashPaymentsfromOperatingActivities"@[22] == 'p');
    reveal_strlit("PaymentsonBehalfofEmployees");
    assert("PaymentsonBehalfofEmployees"@.len() == 27
        && "PaymentsonBehalfofEmployees"@[2] == 'y'
        && "PaymentsonBehalfofEmployees"@[8] == 'o'
        && "PaymentsonBehalfofEmployees"@[14] == 'l'
        && "PaymentsonBehalfofEmployees"@[18] == 'E'
        && "PaymentsonBehalfofEmployees"@[22] == 'o');
    reveal_strlit("PaymentstoSuppliersforGoodsandServices");
    assert("PaymentstoSuppliersforGoodsandServices"@.len() == 38
        && "PaymentstoSuppliersforGoodsandServices"@[2] == 'y'
        && "PaymentstoSuppliersforGoodsandServices"@[8] == 't'
        && "PaymentstoSuppliersforGoodsandServices"@[14] == 'l'
        && "PaymentstoSuppliersforGoodsandServices"@[18] == 's'
        && "PaymentstoSuppliersforGoodsandServices"@[22] == 'G');
    reveal_strlit("ClassesofCashReceiptsfromOperatingActivities");
    assert("ClassesofCashReceiptsfromOperatingActivities"@.len() == 44
        && "ClassesofCashReceiptsfromOperatingActivities"@[2] == 'a'
        && "ClassesofCashReceiptsfromOperatingActivities"@[8] == 'f'
        && "ClassesofCashReceiptsfromOperatingActivities"@[14] == 'e'
        && "ClassesofCashReceiptsfromOperatingActivities"@[18] == 'p'
        && "ClassesofCashReceiptsfromOperatingActivities"@[22] == 'r');
    reveal_strlit("OtherCashReceiptsfromOperatingActivities");
    assert("OtherCashReceiptsfromOperatingActivities"@.len() == 40
        && "OtherCashReceiptsfromOperatingActivities"@[2] == 'h'
        && "OtherCashReceiptsfromOperatingActivities"@[8] == 'h'
        && "OtherCashReceiptsfromOperatingActivities"@[14] == 'p'
        && "OtherCashReceiptsfromOperatingActivities"@[18] == 'r'
        && "OtherCashReceiptsfromOperatingActivities"@[22] == 'p');
    reveal_strlit("ReceiptsfromGovernmentGrants");
    assert("ReceiptsfromGovernmentGrants"@.len() == 28
        && "ReceiptsfromGovernmentGrants"@[2] == 'c'
        && "ReceiptsfromGovernmentGrants"@[8] == 'f'
        && "ReceiptsfromGovernmentGrants"@[14] == 'v'
        && "ReceiptsfromGovernmentGrants"@[18] == 'm'
        && "ReceiptsfromGovernmentGrants"@[22] == 'G');
    reveal_strlit("ReceiptsfromCustomers");
    assert("ReceiptsfromCustomers"@.len() == 21
        && "ReceiptsfromCustomers"@[2] == 'c'
        && "ReceiptsfromCustomers"@[8] == 'f'
        && "ReceiptsfromCustomers"@[14] == 's'
        && "ReceiptsfromCustomers"@[18] == 'e');
}

impl AsStr for CashflowFact {
    open spec fn spec_str(&self) -> Seq<char> {
        self.name()
    }

    fn as_str(&self) -> (name: &str) {
        match self {
            Self::ForeignSales => "ForeignSales",
            Self::DomesticSales => "DomesticSales",
            Self::AdjustedGeographySegmentData => "AdjustedGeographySegmentData",
            Self::FreeCashFlow => "FreeCashFlow",
            Self::RepurchaseOfCapitalStock => "RepurchaseOfCapitalStock",
            Self::RepaymentOfDebt => "RepaymentOfDebt",
            Self::IssuanceOfDebt => "IssuanceOfDebt",
            Self::IssuanceOfCapitalStock => "IssuanceOfCapitalStock",
            Self::CapitalExpenditure => "CapitalExpenditure",
            Self::InterestPaidSupplementalData => "InterestPaidSupplementalData",
            Self::IncomeTaxPaidSupplementalData => "IncomeTaxPaidSupplementalData",
            Self::EndCashPosition => "EndCashPosition",
            Self::OtherCashAdjustmentOutsideChangeinCash => "OtherCashAdjustmentOutsideChangeinCash",
            Self::BeginningCashPosition => "BeginningCashPosition",
            Self::EffectOfExchangeRateChanges => "EffectOfExchangeRateChanges",
            Self::ChangesInCash => "ChangesInCash",
            Self::OtherCashAdjustmentInsideChangeinCash => "OtherCashAdjustmentInsideChangeinCash",
            Self::CashFlowFromDiscontinuedOperation => "CashFlowFromDiscontinuedOperation",
            Self::FinancingCashFlow => "FinancingCashFlow",
            Self::CashFromDiscontinuedFinancingActivities => "CashFromDiscontinuedFinancingActivities",
            Self::CashFlowFromContinuingFinancingActivities => "CashFlowFromContinuingFinancingActivities",
            Self::NetOtherFinancingCharges => "NetOtherFinancingCharges",
            Self::InterestPaidCFF => "InterestPaidCFF",
            Self::ProceedsFromStockOptionExercised => "ProceedsFromStockOptionExercised",
            Self::CashDividendsPaid => "CashDividendsPaid",
            Self::PreferredStockDividendPaid => "PreferredStockDividendPaid",
            Self::CommonStockDividendPaid => "CommonStockDividendPaid",
            Self::NetPreferredStockIssuance => "NetPreferredStockIssuance",
            Self::PreferredStockPayments => "PreferredStockPayments",
            Self::PreferredStockIssuance => "PreferredStockIssuance",
            Self::NetCommonStockIssuance => "NetCommonStockIssuance",
            Self::CommonStockPayments => "CommonStockPayments",
            Self::CommonStockIssuance => "CommonStockIssuance",
            Self::NetIssuancePaymentsOfDebt => "NetIssuancePaymentsOfDebt",
            Self::NetShortTermDebtIssuance => "NetShortTermDebtIssuance",
            Self::ShortTermDebtPayments => "ShortTermDebtPayments",
            Self::ShortTermDebtIssuance => "ShortTermDebtIssuance",
            Self::NetLongTermDebtIssuance => "NetLongTermDebtIssuance",
            Self::LongTermDebtPayments => "LongTermDebtPayments",
            Self::LongTermDebtIssuance => "LongTermDebtIssuance",
            Self::InvestingCashFlow => "InvestingCashFlow",
            Self::CashFromDiscontinuedInvestingActivities => "CashFromDiscontinuedInvestingActivities",
            Self::CashFlowFromContinuingInvestingActivities => "CashFlowFromContinuingInvestingActivities",
            Self::NetOtherInvestingChanges => "NetOtherInvestingChanges",
            Self::InterestReceivedCFI => "InterestReceivedCFI",
            Self::DividendsReceivedCFI => "DividendsReceivedCFI",
            Self::NetInvestmentPurchaseAndSale => "NetInvestmentPurchaseAndSale",
            Self::SaleOfInvestment => "SaleOfInvestment",
            Self::PurchaseOfInvestment => "PurchaseOfInvestment",
            Self::NetInvestmentPropertiesPurchaseAndSale => "NetInvestmentPropertiesPurchaseAndSale",
            Self::SaleOfInvestmentProperties => "SaleOfInvestmentProperties",
            Self::PurchaseOfInvestmentProperties => "PurchaseOfInvestmentProperties",
            Self::NetBusinessPurchaseAndSale => "NetBusinessPurchaseAndSale",
            Self::SaleOfBusiness => "SaleOfBusiness",
            Self::PurchaseOfBusiness => "PurchaseOfBusiness",
            Self::NetIntangiblesPurchaseAndSale => "NetIntangiblesPurchaseAndSale",
            Self::SaleOfIntangibles => "SaleOfIntangibles",
            Self::PurchaseOfIntangibles => "PurchaseOfIntangibles",
            Self::NetPPEPurchaseAndSale => "NetPPEPurchaseAndSale",
            Self::SaleOfPPE => "SaleOfPPE",
            Self::PurchaseOfPPE => "PurchaseOfPPE",
            Self::CapitalExpenditureReported => "CapitalExpenditureReported",
            Self::OperatingCashFlow => "OperatingCashFlow",
            Self::CashFromDiscontinuedOperatingActivities => "CashFromDiscontinuedOperatingActivities",
            Self::CashFlowFromContinuingOperatingActivities => "CashFlowFromContinuingOperatingActivities",
            Self::TaxesRefundPaid => "TaxesRefundPaid",
            Self::InterestReceivedCFO => "InterestReceivedCFO",
            Self::InterestPaidCFO => "InterestPaidCFO",
            Self::DividendReceivedCFO => "DividendReceivedCFO",
            Self::DividendPaidCFO => "DividendPaidCFO",
            Self::ChangeInWorkingCapital => "ChangeInWorkingCapital",
            Self::ChangeInOtherWorkingCapital => "ChangeInOtherWorkingCapital",
            Self::ChangeInOtherCurrentLiabilities => "ChangeInOtherCurrentLiabilities",
            Self::ChangeInOtherCurrentAssets => "ChangeInOtherCurrentAssets",
            Self::ChangeInPayablesAndAccruedExpense => "ChangeInPayablesAndAccruedExpense",
            Self::ChangeInAccruedExpense => "ChangeInAccruedExpense",
            Self::ChangeInInterestPayable => "ChangeInInterestPayable",
            Self::ChangeInPayable => "ChangeInPayable",
            Self::ChangeInDividendPayable => "ChangeInDividendPayable",
            Self::ChangeInAccountPayable => "ChangeInAccountPayable",
            Self::ChangeInTaxPayable => "ChangeInTaxPayable",
            Self::ChangeInIncomeTaxPayable => "ChangeInIncomeTaxPayable",
            Self::ChangeInPrepaidAssets => "ChangeInPrepaidAssets",
            Self::ChangeInInventory => "ChangeInInventory",
            Self::ChangeInReceivables => "ChangeInReceivables",
            Self::ChangesInAccountReceivables => "ChangesInAccountReceivables",
            Self::OtherNonCashItems => "OtherNonCashItems",
            Self::ExcessTaxBenefitFromStockBasedCompensation => "ExcessTaxBenefitFromStockBasedCompensation",
            Self::StockBasedCompensation => "StockBasedCompensation",
            Self::UnrealizedGainLossOnInvestmentSecurities => "UnrealizedGainLossOnInvestmentSecurities",
            Self::ProvisionandWriteOffofAssets => "ProvisionandWriteOffofAssets",
            Self::AssetImpairmentCharge => "AssetImpairmentCharge",
            Self::AmortizationOfSecurities => "AmortizationOfSecurities",
            Self::DeferredTax => "DeferredTax",
            Self::DeferredIncomeTax => "DeferredIncomeTax",
            Self::DepreciationAmortizationDepletion => "DepreciationAmortizationDepletion",
            Self::Depletion => "Depletion",
            Self::DepreciationAndAmortization => "DepreciationAndAmortization",
            Self::AmortizationCashFlow => "AmortizationCashFlow",
            Self::AmortizationOfIntangibles => "AmortizationOfIntangibles",
            Self::Depreciation => "Depreciation",
            Self::OperatingGainsLosses => "OperatingGainsLosses",
            Self::PensionAndEmployeeBenefitExpense => "PensionAndEmployeeBenefitExpense",
            Self::EarningsLossesFromEquityInvestments => "EarningsLossesFromEquityInvestments",
            Self::GainLossOnInvestmentSecurities => "GainLossOnInvestmentSecurities",
            Self::NetForeignCurrencyExchangeGainLoss => "NetForeignCurrencyExchangeGainLoss",
            Self::GainLossOnSaleOfPPE => "GainLossOnSaleOfPPE",
            Self::GainLossOnSaleOfBusiness => "GainLossOnSaleOfBusiness",
            Self::NetIncomeFromContinuingOperations => "NetIncomeFromContinuingOperations",
            Self::CashFlowsfromusedinOperatingActivitiesDirect => "CashFlowsfromusedinOperatingActivitiesDirect",
            Self::TaxesRefundPaidDirect => "TaxesRefundPaidDirect",
            Self::InterestReceivedDirect => "InterestReceivedDirect",
            Self::InterestPaidDirect => "InterestPaidDirect",
            Self::DividendsReceivedDirect => "DividendsReceivedDirect",
            Self::DividendsPaidDirect => "DividendsPaidDirect",
            Self::ClassesofCashPayments => "ClassesofCashPayments",
            Self::OtherCashPaymentsfromOperatingActivities => "OtherCashPaymentsfromOperatingActivities",
            Self::PaymentsonBehalfofEmployees => "PaymentsonBehalfofEmployees",
            Self::PaymentstoSuppliersforGoodsandServices => "PaymentstoSuppliersforGoodsandServices",
            Self::ClassesofCashReceiptsfromOperatingActivities => "ClassesofCashReceiptsfromOperatingActivities",
            Self::OtherCashReceiptsfromOperatingActivities => "OtherCashReceiptsfromOperatingActivities",
            Self::ReceiptsfromGovernmentGrants => "ReceiptsfromGovernmentGrants",
            Self::ReceiptsfromCustomers => "ReceiptsfromCustomers",
        }
    }
}

} // verus!
