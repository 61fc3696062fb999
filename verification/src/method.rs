use crate::text::{joined, decimal, decimal_string};
use vstd::prelude::*;
use vstd::string::*;

verus! {

/// One summary statistic of a column.
#[derive(Debug, Clone, Copy, PartialEq, Eq, Structural)]
pub enum DescribeMethod {
    /// How many values are not null.
    Total,
    /// How many values are null.
    NullTotal,
    /// The arithmetic mean.
    Mean,
    /// The sample standard deviation.
    Stddev,
    /// The smallest value.
    Min,
    /// The largest value.
    Max,
    /// The 50th percentile.
    Median,
    /// The p-th percentile. Reserved: no summary computes it yet.
    Percentile(u8),
}

impl DescribeMethod {
    /// Whether a summary can compute this statistic.
    pub open spec fn is_implemented(self) -> bool {
        !(self is Percentile)
    }

    /// The text that stands for this statistic in the `stats` column.
    pub open spec fn spec_name(self) -> Seq<char> {
        match self {
            DescribeMethod::Total => "Total"@,
            DescribeMethod::NullTotal => "Null Total"@,
            DescribeMethod::Mean => "Mean"@,
            DescribeMethod::Stddev => "Stddev"@,
            DescribeMethod::Min => "Min"@,
            DescribeMethod::Max => "Max"@,
            DescribeMethod::Median => "Median"@,
            DescribeMethod::Percentile(p) => "Percentile "@ + decimal(p as nat),
        }
    }

    /// The display name of the statistic.
    pub fn name(&self) -> (s: String)
        ensures
            s@ == self.spec_name(),
    {
        match self {
            DescribeMethod::Total => String::from_str("Total"),
            DescribeMethod::NullTotal => String::from_str("Null Total"),
            DescribeMethod::Mean => String::from_str("Mean"),
            DescribeMethod::Stddev => String::from_str("Stddev"),
            DescribeMethod::Min => String::from_str("Min"),
            DescribeMethod::Max => String::from_str("Max"),
            DescribeMethod::Median => String::from_str("Median"),
            DescribeMethod::Percentile(p) => {
                let digits = decimal_string(*p as u64);
                joined("Percentile ", digits.as_str())
            },
        }
    }

    /// Whether a summary can compute this statistic.
    pub fn implemented(&self) -> (b: bool)
        ensures
            b == self.is_implemented(),
    {
        match self {
            DescribeMethod::Percentile(_) => false,
            _ => true,
        }
    }
}

/// The statistics of a summary, in the order of its rows.
pub open spec fn registry_spec() -> Seq<DescribeMethod> {
    seq![
        DescribeMethod::Total,
        DescribeMethod::NullTotal,
        DescribeMethod::Mean,
        DescribeMethod::Stddev,
        DescribeMethod::Min,
        DescribeMethod::Max,
        DescribeMethod::Median,
    ]
}

/// The statistics of a summary, in the order of its rows.
pub fn registry() -> (methods: Vec<DescribeMethod>)
    ensures
        methods@ == registry_spec(),
{
    let mut methods: Vec<DescribeMethod> = Vec::new();
    methods.push(DescribeMethod::Total);
    methods.push(DescribeMethod::NullTotal);
    methods.push(DescribeMethod::Mean);
    methods.push(DescribeMethod::Stddev);
    methods.push(DescribeMethod::Min);
    methods.push(DescribeMethod::Max);
    methods.push(DescribeMethod::Median);
    assert(methods@ =~= registry_spec());
    methods
}

} // verus!
