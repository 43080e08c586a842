use vstd::prelude::*;

verus! {

/// Which decibel convention a quantity follows.
pub enum DecibelConversion {
    /// For amplitude quantities: `dB = 20·log10(A)`, inverse `A = 10^(dB/20)`.
    Amplitude,
    /// For power quantities: `dB = 10·log10(P)`, inverse `P = 10^(dB/10)`.
    Power,
}

impl DecibelConversion {
    /// The number of decibels per decade: the linear value is `10^(dB / factor)`.
    pub fn factor(&self) -> (f: u8)
        ensures
            f == match self {
                DecibelConversion::Amplitude => 20u8,
                DecibelConversion::Power => 10u8,
            },
    {
        match self {
            DecibelConversion::Amplitude => 20,
            DecibelConversion::Power => 10,
        }
    }
}

} // verus!
