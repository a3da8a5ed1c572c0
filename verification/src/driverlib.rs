//! Constants of the TI driver library for the CC26x0 family.
use vstd::prelude::*;

verus! {

// Memory map.
pub const SRAM_BASE: u32 = 0x2000_0000;

pub const UART0_BASE: u32 = 0x4000_1000;

pub const GPT0_BASE: u32 = 0x4001_0000;

pub const UDMA0_BASE: u32 = 0x4002_0000;

pub const IOC_BASE: u32 = 0x4008_1000;

pub const AUX_AIODIO0_BASE: u32 = 0x400C_1000;

pub const AUX_AIODIO1_BASE: u32 = 0x400C_2000;

pub const AUX_RAM_BASE: u32 = 0x400E_0000;

// Power domains.
pub const PRCM_DOMAIN_RFCORE: u32 = 0x0000_0001;

pub const PRCM_DOMAIN_SERIAL: u32 = 0x0000_0002;

pub const PRCM_DOMAIN_PERIPH: u32 = 0x0000_0004;

pub const PRCM_DOMAIN_SYSBUS: u32 = 0x0000_0008;

pub const PRCM_DOMAIN_VIMS: u32 = 0x0000_0010;

pub const PRCM_DOMAIN_CPU: u32 = 0x0000_0020;

pub const PRCM_DOMAIN_POWER_ON: u32 = 0x0000_0001;

// I/O controller.
pub const IOID_2: u32 = 0x0000_0002;

pub const IOID_3: u32 = 0x0000_0003;

pub const IOID_4: u32 = 0x0000_0004;

pub const IOID_8: u32 = 0x0000_0008;

pub const IOID_UNUSED: u32 = 0xFFFF_FFFF;

pub const IOC_IOPULL_DOWN: u32 = 0x0000_2000;

pub const IOC_IOPULL_UP: u32 = 0x0000_4000;

pub const IOC_NO_IOPULL: u32 = 0x0000_6000;

pub const IOC_O_IOCFG0: u32 = 0x0000_0000;

pub const IOC_IOCFG0_PORT_ID_AUX_IO: u32 = 0x0000_0008;

pub const IOC_IOCFG0_PULL_CTL_DWN: u32 = 0x0000_2000;

pub const IOC_IOCFG0_PULL_CTL_UP: u32 = 0x0000_4000;

pub const IOC_IOCFG0_PULL_CTL_DIS: u32 = 0x0000_6000;

// General purpose timer.
pub const TIMER_A: u32 = 0x0000_00FF;

// Real-time clock.
pub const AON_RTC_CH0: u32 = 0x0000_0001;

pub const AON_RTC_CH1: u32 = 0x0000_0002;

pub const AON_RTC_CH2: u32 = 0x0000_0004;

pub const AON_EVENT_MCU_WU0: u32 = 0;

pub const AON_EVENT_MCU_WU1: u32 = 1;

pub const AON_EVENT_MCU_WU2: u32 = 2;

pub const AON_EVENT_RTC_CH0: u32 = 35;

pub const AON_EVENT_RTC_CH1: u32 = 36;

pub const AON_EVENT_RTC_CH2: u32 = 37;

// UART.
pub const UART_INT_OE: u32 = 0x0000_0400;

pub const UART_INT_BE: u32 = 0x0000_0200;

pub const UART_INT_PE: u32 = 0x0000_0100;

pub const UART_INT_FE: u32 = 0x0000_0080;

pub const UART_INT_RT: u32 = 0x0000_0040;

pub const UART_INT_TX: u32 = 0x0000_0020;

pub const UART_INT_RX: u32 = 0x0000_0010;

pub const UART_INT_CTS: u32 = 0x0000_0002;

pub const UART_CONFIG_WLEN_8: u32 = 0x0000_0060;

pub const UART_CONFIG_STOP_ONE: u32 = 0x0000_0000;

pub const UART_CONFIG_PAR_NONE: u32 = 0x0000_0000;

// Micro DMA controller.
pub const UDMA_XFER_SIZE_MAX: u32 = 1024;

pub const UDMA_PRI_SELECT: u32 = 0x0000_0000;

pub const UDMA_MODE_BASIC: u32 = 0x0000_0001;

pub const UDMA_SIZE_8: u32 = 0x0000_0000;

pub const UDMA_SIZE_16: u32 = 0x1100_0000;

pub const UDMA_SIZE_32: u32 = 0x2200_0000;

pub const UDMA_SRC_INC_8: u32 = 0x0000_0000;

pub const UDMA_SRC_INC_16: u32 = 0x0400_0000;

pub const UDMA_SRC_INC_32: u32 = 0x0800_0000;

pub const UDMA_SRC_INC_NONE: u32 = 0x0C00_0000;

pub const UDMA_DST_INC_8: u32 = 0x0000_0000;

pub const UDMA_DST_INC_16: u32 = 0x4000_0000;

pub const UDMA_DST_INC_32: u32 = 0x8000_0000;

pub const UDMA_DST_INC_NONE: u32 = 0xC000_0000;

pub const UDMA_ARB_1: u32 = 0x0000_0000;

pub const UDMA_ARB_2: u32 = 0x0000_4000;

pub const UDMA_ARB_4: u32 = 0x0000_8000;

pub const UDMA_ARB_8: u32 = 0x0000_C000;

pub const UDMA_ARB_16: u32 = 0x0001_0000;

pub const UDMA_ARB_32: u32 = 0x0001_4000;

pub const UDMA_ARB_64: u32 = 0x0001_8000;

pub const UDMA_ARB_128: u32 = 0x0001_C000;

pub const UDMA_ARB_256: u32 = 0x0002_0000;

pub const UDMA_ARB_512: u32 = 0x0002_4000;

pub const UDMA_ARB_1024: u32 = 0x0002_8000;

// AUX domain.
pub const AUX_WUC_SMPH_CLOCK: u32 = 0x0000_0001;

pub const AUX_WUC_AIODIO0_CLOCK: u32 = 0x0000_0002;

pub const AUX_WUC_AIODIO1_CLOCK: u32 = 0x0000_0004;

pub const AUX_WUC_TIMER_CLOCK: u32 = 0x0000_0008;

pub const AUX_WUC_ANAIF_CLOCK: u32 = 0x0000_0010;

pub const AUX_WUC_TDCIF_CLOCK: u32 = 0x0000_0020;

pub const AUX_WUC_OSCCTRL_CLOCK: u32 = 0x0000_0040;

pub const AUX_WUC_ADI_CLOCK: u32 = 0x0000_0080;

pub const AUX_WUC_POWER_DOWN: u32 = 0x0000_0002;

} // verus!
