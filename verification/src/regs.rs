//! Addresses and bit fields of the registers that the drivers touch directly.
use vstd::prelude::*;

verus! {

// GPIO.
pub const GPIO_DOUTSET31_0: u32 = 0x4002_2090;

pub const GPIO_DOUTCLR31_0: u32 = 0x4002_20A0;

// Micro DMA controller.
pub const UDMA_CFG: u32 = 0x4002_0004;

pub const UDMA_CFG_MASTERENABLE: u32 = 1;

pub const UDMA_CTRL: u32 = 0x4002_0008;

pub const UDMA_SOFTREQ: u32 = 0x4002_0014;

pub const UDMA_REQDONE: u32 = 0x4002_0504;

pub const UDMA_DONEMASK: u32 = 0x4002_0520;

// General purpose timer 0.
pub const GPT0_CFG: u32 = 0x4001_0000;

pub const GPT0_CFG_32BIT_TIMER: u32 = 0;

pub const GPT0_TAMR: u32 = 0x4001_0004;

pub const GPT0_TAMR_TAMR: u32 = 0x3;

pub const GPT0_TAMR_TAMR_PERIODIC: u32 = 0x2;

pub const GPT0_TAMR_TACDIR: u32 = 0x10;

pub const GPT0_TAMR_TAMIE: u32 = 0x20;

pub const GPT0_TAMR_TACINTD: u32 = 0x1000;

pub const GPT0_CTL: u32 = 0x4001_000C;

pub const GPT0_CTL_TASTALL: u32 = 0x2;

pub const GPT0_IMR: u32 = 0x4001_0018;

pub const GPT0_IMR_TATOIM: u32 = 0x1;

pub const GPT0_IMR_TAMIM: u32 = 0x10;

pub const GPT0_MIS_TATOMIS: u32 = 0x1;

pub const GPT0_MIS_TAMMIS: u32 = 0x10;

pub const GPT0_ICLR: u32 = 0x4001_0024;

pub const GPT0_TAV: u32 = 0x4001_0050;

// Real-time clock.
pub const AON_RTC_SEC: u32 = 0x4009_2008;

pub const AON_RTC_SUBSEC: u32 = 0x4009_200C;

pub const AON_RTC_SYNC: u32 = 0x4009_202C;

// Power, reset and clock management.
pub const PRCM_CLKLOADCTL: u32 = 0x4008_2028;

pub const PRCM_CLKLOADCTL_LOAD: u32 = 0x1;

pub const PRCM_CLKLOADCTL_LOAD_DONE: u32 = 0x2;

pub const PRCM_RFCCLKG: u32 = 0x4008_202C;

pub const PRCM_SECDMACLKGR: u32 = 0x4008_203C;

pub const PRCM_SECDMACLKGS: u32 = 0x4008_2040;

pub const PRCM_SECDMACLKGDS: u32 = 0x4008_2044;

pub const PRCM_SECDMACLKG_CRYPTO: u32 = 0x1;

pub const PRCM_SECDMACLKG_DMA: u32 = 0x100;

pub const PRCM_GPIOCLKGR: u32 = 0x4008_2048;

pub const PRCM_GPIOCLKGS: u32 = 0x4008_204C;

pub const PRCM_GPIOCLKGDS: u32 = 0x4008_2050;

pub const PRCM_GPTCLKGR: u32 = 0x4008_2054;

pub const PRCM_GPTCLKGS: u32 = 0x4008_2058;

pub const PRCM_GPTCLKGDS: u32 = 0x4008_205C;

pub const PRCM_I2CCLKGR: u32 = 0x4008_2060;

pub const PRCM_UARTCLKGR: u32 = 0x4008_206C;

pub const PRCM_UARTCLKGS: u32 = 0x4008_2070;

pub const PRCM_UARTCLKGDS: u32 = 0x4008_2074;

/// Clock enable bit; for the timers' gates it selects timer 0.
pub const PRCM_CLK_EN: u32 = 0x1;

pub const PRCM_RFCMODESEL: u32 = 0x4008_21D0;

pub const PRCM_RFCMODESEL_MODE5: u32 = 5;

// UART 0.
pub const UART0_DR: u32 = 0x4000_1000;

pub const UART0_FR_RXFE: u32 = 0x10;

pub const UART0_FR_TXFF: u32 = 0x20;

pub const UART0_FR_RXFF: u32 = 0x40;

pub const UART0_FR_TXFE: u32 = 0x80;

pub const UART0_CTL: u32 = 0x4000_1030;

pub const UART0_CTL_UARTEN: u32 = 0x1;

pub const UART0_IFLS: u32 = 0x4000_1034;

pub const UART0_IFLS_RXSEL: u32 = 0x38;

pub const UART0_MIS_RXMIS: u32 = 0x10;

pub const UART0_MIS_RTMIS: u32 = 0x40;

pub const UART0_ICR: u32 = 0x4000_1044;

pub const UART0_ICR_RXIC: u32 = 0x10;

pub const UART0_ICR_RTIC: u32 = 0x40;

pub const UART0_DMACTL: u32 = 0x4000_1048;

pub const UART0_DMACTL_TXDMAE: u32 = 0x2;

// AUX domain.
pub const AON_WUC_AUXCTL_SCE_RUN_EN: u32 = 0x4;

pub const AUX_EVCTL_VECCFG0: u32 = 0x400C_5000;

pub const AUX_EVCTL_VECCFG0_VEC0_EV_AON_SW: u32 = 0xB;

pub const AUX_EVCTL_VECCFG0_VEC0_EN: u32 = 0x20;

pub const AUX_EVCTL_VECCFG0_VEC0_POL: u32 = 0x40;

pub const AUX_EVCTL_VECCFG0_VEC1_EV_AON_RTC_CH2: u32 = 0;

pub const AUX_EVCTL_VECCFG0_VEC1_EN: u32 = 0x2000;

pub const AUX_EVCTL_VECCFG1: u32 = 0x400C_5004;

pub const AUX_EVCTL_VECCFG1_VEC2_EV_AON_SW: u32 = 0xB;

pub const AUX_EVCTL_VECCFG1_VEC3_EV_AON_SW: u32 = 0xB00;

pub const AUX_EVCTL_VECCFG1_VEC3_EN: u32 = 0x2000;

pub const AUX_EVCTL_EVTOAONFLAGS: u32 = 0x400C_500C;

pub const AUX_EVCTL_SWEVSET: u32 = 0x400C_5018;

pub const AUX_EVCTL_VECFLAGS: u32 = 0x400C_5034;

pub const AUX_EVCTL_EVTOAONFLAGSCLR: u32 = 0x400C_503C;

pub const AUX_EVCTL_SWEV0: u32 = 0x1;

pub const AUX_EVCTL_SWEV1: u32 = 0x2;

pub const AUX_WUC_MCUBUSCTL: u32 = 0x400C_6048;

pub const AUX_SCE_CTL: u32 = 0x400E_1000;

/// Reset vector number one.
pub const AUX_SCE_CTL_RESET_VECTOR_1: u32 = 0x100;

// Offsets into one of the two AUX I/O controllers.
pub const AUX_AIODIO_O_GPIODOUT: u32 = 0x0000_0000;

pub const AUX_AIODIO_O_IOMODE: u32 = 0x0000_0004;

pub const AUX_AIODIO_O_GPIODIE: u32 = 0x0000_0018;

// System control.
pub const CPU_SCS_ICSR_VECTACTIVE: u32 = 0x1FF;

} // verus!
