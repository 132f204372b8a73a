use vstd::prelude::*;

verus! {

/// Frozen clock tree, as the probe logic sees it: one queryable frequency per
/// clock domain. Configuring the tree itself is board work; the logic only
/// reads the resulting frequencies.
pub struct Clocks {
    pub clk_spi1: u32,
    pub clk_spi2: u32,
    pub clk_uart0: u32,
    pub clk_uart9: u32,
    pub clk_mchtmr0: u32,
}

impl Clocks {
    pub fn new(
        clk_spi1: u32,
        clk_spi2: u32,
        clk_uart0: u32,
        clk_uart9: u32,
        clk_mchtmr0: u32,
    ) -> (r: Clocks)
        ensures
            r.clk_spi1 == clk_spi1,
            r.clk_spi2 == clk_spi2,
            r.clk_uart0 == clk_uart0,
            r.clk_uart9 == clk_uart9,
            r.clk_mchtmr0 == clk_mchtmr0,
    {
        Clocks { clk_spi1, clk_spi2, clk_uart0, clk_uart9, clk_mchtmr0 }
    }

    pub fn get_clk_spi1_freq(&self) -> (r: u32)
        ensures
            r == self.clk_spi1,
    {
        self.clk_spi1
    }

    pub fn get_clk_spi2_freq(&self) -> (r: u32)
        ensures
            r == self.clk_spi2,
    {
        self.clk_spi2
    }

    pub fn get_clk_uart0_freq(&self) -> (r: u32)
        ensures
            r == self.clk_uart0,
    {
        self.clk_uart0
    }

    pub fn get_clk_uart9_freq(&self) -> (r: u32)
        ensures
            r == self.clk_uart9,
    {
        self.clk_uart9
    }

    pub fn get_clk_mchtmr0_freq(&self) -> (r: u32)
        ensures
            r == self.clk_mchtmr0,
    {
        self.clk_mchtmr0
    }
}

} // verus!
