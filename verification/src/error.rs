//! Errors of the remote GPIO daemon and of the code around it.

use crate::decimal::{int_text, push_i64};
use crate::wrapper::{escaped, W};
use vstd::prelude::*;

verus! {

/// What went wrong, as the daemon or its client library classifies it.
#[derive(Clone, Copy, Debug, PartialEq, Eq, PartialOrd, Ord, Structural)]
pub enum ErrorKind {
    /// GpioInitialise failed.
    InitFailed,
    /// GPIO not 0-31.
    BadUserGpio,
    /// GPIO not 0-53.
    BadGpio,
    /// Mode not 0-7.
    BadMode,
    /// Level not 0-1.
    BadLevel,
    /// Pud not 0-2.
    BadPud,
    /// Pulsewidth not 0 or 500-2500.
    BadPulsewidth,
    /// Dutycycle outside set range.
    BadDutycycle,
    /// Timer not 0-9.
    BadTimer,
    /// Ms not 10-60000.
    BadMs,
    /// Timetype not 0-1.
    BadTimetype,
    /// Seconds < 0.
    BadSeconds,
    /// Micros not 0-999999.
    BadMicros,
    /// GpioSetTimerFunc failed.
    TimerFailed,
    /// Timeout not 0-60000.
    BadWdogTimeout,
    /// Deprecated.
    NoAlertFunc,
    /// Clock peripheral not 0-1.
    BadClkPeriph,
    /// Deprecated.
    BadClkSource,
    /// Clock micros not 1, 2, 4, 5, 8, or 10.
    BadClkMicros,
    /// Buf millis not 100-10000.
    BadBufMillis,
    /// Dutycycle range not 25-40000.
    BadDutyrange,
    /// Signum not 0-63.
    BadSignum,
    /// Can't open pathname.
    BadPathname,
    /// No handle available.
    NoHandle,
    /// Unknown handle.
    BadHandle,
    /// IfFlags > 4.
    BadIfFlags,
    /// DMA channel not 0-15.
    BadChannel,
    /// Socket port not 1024-32000.
    BadSocketPort,
    /// Unrecognized fifo command.
    BadFifoCommand,
    /// DMA secondary channel not 0-15.
    BadSecoChannel,
    /// Function called before gpioInitialise.
    NotInitialised,
    /// Function called after gpioInitialise.
    Initialised,
    /// Waveform mode not 0-3.
    BadWaveMode,
    /// Bad parameter in gpioCfgInternals call.
    BadCfgInternal,
    /// Baud rate not 50-250K(RX)/50-1M(TX).
    BadWaveBaud,
    /// Waveform has too many pulses.
    TooManyPulses,
    /// Waveform has too many chars.
    TooManyChars,
    /// No bit bang serial read on GPIO.
    NotSerialGpio,
    /// Bad (null) serial structure parameter.
    BadSerialStruc,
    /// Bad (null) serial buf parameter.
    BadSerialBuf,
    /// GPIO operation not permitted.
    NotPermitted,
    /// One or more GPIO not permitted.
    SomePermitted,
    /// Bad WVSC subcommand.
    BadWvscCommnd,
    /// Bad WVSM subcommand.
    BadWvsmCommnd,
    /// Bad WVSP subcommand.
    BadWvspCommnd,
    /// Trigger pulse length not 1-100.
    BadPulselen,
    /// Invalid script.
    BadScript,
    /// Unknown script id.
    BadScriptId,
    /// Add serial data offset > 30 minutes.
    BadSerOffset,
    /// GPIO already in use.
    GpioInUse,
    /// Must read at least a byte at a time.
    BadSerialCount,
    /// Script parameter id not 0-9.
    BadParamNum,
    /// Script has duplicate tag.
    DupTag,
    /// Script has too many tags.
    TooManyTags,
    /// Illegal script command.
    BadScriptCmd,
    /// Script variable id not 0-149.
    BadVarNum,
    /// No more room for scripts.
    NoScriptRoom,
    /// Can't allocate temporary memory.
    NoMemory,
    /// Socket read failed.
    SockReadFailed,
    /// Socket write failed.
    SockWritFailed,
    /// Too many script parameters (> 10).
    TooManyParam,
    /// Script initialising.
    ScriptNotReady,
    /// Script has unresolved tag.
    BadTag,
    /// Bad MICS delay (too large).
    BadMicsDelay,
    /// Bad MILS delay (too large).
    BadMilsDelay,
    /// Non existent wave id.
    BadWaveId,
    /// No more CBs for waveform.
    TooManyCbs,
    /// No more OOL for waveform.
    TooManyOol,
    /// Attempt to create an empty waveform.
    EmptyWaveform,
    /// No more waveforms.
    NoWaveformId,
    /// Can't open I2C device.
    I2cOpenFailed,
    /// Can't open serial device.
    SerOpenFailed,
    /// Can't open SPI device.
    SpiOpenFailed,
    /// Bad I2C bus.
    BadI2cBus,
    /// Bad I2C address.
    BadI2cAddr,
    /// Bad SPI channel.
    BadSpiChannel,
    /// Bad i2c/spi/ser open flags.
    BadFlags,
    /// Bad SPI speed.
    BadSpiSpeed,
    /// Bad serial device name.
    BadSerDevice,
    /// Bad serial baud rate.
    BadSerSpeed,
    /// Bad i2c/spi/ser parameter.
    BadParam,
    /// I2c write failed.
    I2cWriteFailed,
    /// I2c read failed.
    I2cReadFailed,
    /// Bad SPI count.
    BadSpiCount,
    /// Ser write failed.
    SerWriteFailed,
    /// Ser read failed.
    SerReadFailed,
    /// Ser read no data available.
    SerReadNoData,
    /// Unknown command.
    UnknownCommand,
    /// Spi xfer/read/write failed.
    SpiXferFailed,
    /// Bad (NULL) pointer.
    BadPointer,
    /// No auxiliary SPI on Pi A or B.
    NoAuxSpi,
    /// GPIO is not in use for PWM.
    NotPwmGpio,
    /// GPIO is not in use for servo pulses.
    NotServoGpio,
    /// GPIO has no hardware clock.
    NotHclkGpio,
    /// GPIO has no hardware PWM.
    NotHpwmGpio,
    /// Invalid hardware PWM frequency.
    BadHpwmFreq,
    /// Hardware PWM dutycycle not 0-1M.
    BadHpwmDuty,
    /// Invalid hardware clock frequency.
    BadHclkFreq,
    /// Need password to use hardware clock 1.
    BadHclkPass,
    /// Illegal, PWM in use for main clock.
    HpwmIllegal,
    /// Serial data bits not 1-32.
    BadDatabits,
    /// Serial (half) stop bits not 2-8.
    BadStopbits,
    /// Socket/pipe message too big.
    MsgToobig,
    /// Bad memory allocation mode.
    BadMallocMode,
    /// Too many I2C transaction segments.
    TooManySegs,
    /// An I2C transaction segment failed.
    BadI2cSeg,
    /// SMBus command not supported by driver.
    BadSmbusCmd,
    /// No bit bang I2C in progress on GPIO.
    NotI2cGpio,
    /// Bad I2C write length.
    BadI2cWlen,
    /// Bad I2C read length.
    BadI2cRlen,
    /// Bad I2C command.
    BadI2cCmd,
    /// Bad I2C baud rate, not 50-500k.
    BadI2cBaud,
    /// Bad chain loop count.
    ChainLoopCnt,
    /// Empty chain loop.
    BadChainLoop,
    /// Too many chain counters.
    ChainCounter,
    /// Bad chain command.
    BadChainCmd,
    /// Bad chain delay micros.
    BadChainDelay,
    /// Chain counters nested too deeply.
    ChainNesting,
    /// Chain is too long.
    ChainTooBig,
    /// Deprecated function removed.
    Deprecated,
    /// Bit bang serial invert not 0 or 1.
    BadSerInvert,
    /// Bad ISR edge value, not 0-2.
    BadEdge,
    /// Bad ISR initialisation.
    BadIsrInit,
    /// Loop forever must be last command.
    BadForever,
    /// Bad filter parameter.
    BadFilter,
    /// Bad pad number.
    BadPad,
    /// Bad pad drive strength.
    BadStrength,
    /// File open failed.
    FilOpenFailed,
    /// Bad file mode.
    BadFileMode,
    /// Bad file flag.
    BadFileFlag,
    /// Bad file read.
    BadFileRead,
    /// Bad file write.
    BadFileWrite,
    /// File not open for read.
    FileNotRopen,
    /// File not open for write.
    FileNotWopen,
    /// Bad file seek.
    BadFileSeek,
    /// No files match pattern.
    NoFileMatch,
    /// No permission to access file.
    NoFileAccess,
    /// File is a directory.
    FileIsADir,
    /// Bad shell return status.
    BadShellStatus,
    /// Bad script name.
    BadScriptName,
    /// Bad SPI baud rate, not 50-500k.
    BadSpiBaud,
    /// No bit bang SPI in progress on GPIO.
    NotSpiGpio,
    /// Bad event id.
    BadEventId,
    /// Used by Python.
    CmdInterrupted,
    /// Not available on BCM2711.
    NotOnBcm2711,
    /// Only available on BCM2711.
    OnlyOnBcm2711,
    /// Failed to send to pigpiod.
    BadSend,
    /// Failed to receive from pigpiod.
    BadRecv,
    /// Failed to find address of pigpiod.
    BadGetaddrinfo,
    /// Failed to connect to pigpiod.
    BadConnect,
    /// Failed to create socket.
    BadSocket,
    /// Failed to open notification in band.
    BadNoib,
    /// Identical callback exists.
    DuplicateCallback,
    /// Failed to malloc.
    BadMalloc,
    /// Bad callback parameter.
    BadCallback,
    /// Failed to create notification thread.
    NotifyFailed,
    /// Callback not found.
    CallbackNotFound,
    /// Not connected to Pi.
    UnconnectedPi,
    /// Too many connected Pis.
    TooManyPis,
    /// Anything the daemon has no status for.
    Other,
}

impl ErrorKind {
    /// The kind that the daemon means by the status `code`; [`ErrorKind::Other`] for a
    /// status that it does not define.
    pub open spec fn of_code(code: i32) -> ErrorKind {
        match code {
            -1 => ErrorKind::InitFailed,
            -2 => ErrorKind::BadUserGpio,
            -3 => ErrorKind::BadGpio,
            -4 => ErrorKind::BadMode,
            -5 => ErrorKind::BadLevel,
            -6 => ErrorKind::BadPud,
            -7 => ErrorKind::BadPulsewidth,
            -8 => ErrorKind::BadDutycycle,
            -9 => ErrorKind::BadTimer,
            -10 => ErrorKind::BadMs,
            -11 => ErrorKind::BadTimetype,
            -12 => ErrorKind::BadSeconds,
            -13 => ErrorKind::BadMicros,
            -14 => ErrorKind::TimerFailed,
            -15 => ErrorKind::BadWdogTimeout,
            -16 => ErrorKind::NoAlertFunc,
            -17 => ErrorKind::BadClkPeriph,
            -18 => ErrorKind::BadClkSource,
            -19 => ErrorKind::BadClkMicros,
            -20 => ErrorKind::BadBufMillis,
            -21 => ErrorKind::BadDutyrange,
            -22 => ErrorKind::BadSignum,
            -23 => ErrorKind::BadPathname,
            -24 => ErrorKind::NoHandle,
            -25 => ErrorKind::BadHandle,
            -26 => ErrorKind::BadIfFlags,
            -27 => ErrorKind::BadChannel,
            -28 => ErrorKind::BadSocketPort,
            -29 => ErrorKind::BadFifoCommand,
            -30 => ErrorKind::BadSecoChannel,
            -31 => ErrorKind::NotInitialised,
            -32 => ErrorKind::Initialised,
            -33 => ErrorKind::BadWaveMode,
            -34 => ErrorKind::BadCfgInternal,
            -35 => ErrorKind::BadWaveBaud,
            -36 => ErrorKind::TooManyPulses,
            -37 => ErrorKind::TooManyChars,
            -38 => ErrorKind::NotSerialGpio,
            -39 => ErrorKind::BadSerialStruc,
            -40 => ErrorKind::BadSerialBuf,
            -41 => ErrorKind::NotPermitted,
            -42 => ErrorKind::SomePermitted,
            -43 => ErrorKind::BadWvscCommnd,
            -44 => ErrorKind::BadWvsmCommnd,
            -45 => ErrorKind::BadWvspCommnd,
            -46 => ErrorKind::BadPulselen,
            -47 => ErrorKind::BadScript,
            -48 => ErrorKind::BadScriptId,
            -49 => ErrorKind::BadSerOffset,
            -50 => ErrorKind::GpioInUse,
            -51 => ErrorKind::BadSerialCount,
            -52 => ErrorKind::BadParamNum,
            -53 => ErrorKind::DupTag,
            -54 => ErrorKind::TooManyTags,
            -55 => ErrorKind::BadScriptCmd,
            -56 => ErrorKind::BadVarNum,
            -57 => ErrorKind::NoScriptRoom,
            -58 => ErrorKind::NoMemory,
            -59 => ErrorKind::SockReadFailed,
            -60 => ErrorKind::SockWritFailed,
            -61 => ErrorKind::TooManyParam,
            -62 => ErrorKind::ScriptNotReady,
            -63 => ErrorKind::BadTag,
            -64 => ErrorKind::BadMicsDelay,
            -65 => ErrorKind::BadMilsDelay,
            -66 => ErrorKind::BadWaveId,
            -67 => ErrorKind::TooManyCbs,
            -68 => ErrorKind::TooManyOol,
            -69 => ErrorKind::EmptyWaveform,
            -70 => ErrorKind::NoWaveformId,
            -71 => ErrorKind::I2cOpenFailed,
            -72 => ErrorKind::SerOpenFailed,
            -73 => ErrorKind::SpiOpenFailed,
            -74 => ErrorKind::BadI2cBus,
            -75 => ErrorKind::BadI2cAddr,
            -76 => ErrorKind::BadSpiChannel,
            -77 => ErrorKind::BadFlags,
            -78 => ErrorKind::BadSpiSpeed,
            -79 => ErrorKind::BadSerDevice,
            -80 => ErrorKind::BadSerSpeed,
            -81 => ErrorKind::BadParam,
            -82 => ErrorKind::I2cWriteFailed,
            -83 => ErrorKind::I2cReadFailed,
            -84 => ErrorKind::BadSpiCount,
            -85 => ErrorKind::SerWriteFailed,
            -86 => ErrorKind::SerReadFailed,
            -87 => ErrorKind::SerReadNoData,
            -88 => ErrorKind::UnknownCommand,
            -89 => ErrorKind::SpiXferFailed,
            -90 => ErrorKind::BadPointer,
            -91 => ErrorKind::NoAuxSpi,
            -92 => ErrorKind::NotPwmGpio,
            -93 => ErrorKind::NotServoGpio,
            -94 => ErrorKind::NotHclkGpio,
            -95 => ErrorKind::NotHpwmGpio,
            -96 => ErrorKind::BadHpwmFreq,
            -97 => ErrorKind::BadHpwmDuty,
            -98 => ErrorKind::BadHclkFreq,
            -99 => ErrorKind::BadHclkPass,
            -100 => ErrorKind::HpwmIllegal,
            -101 => ErrorKind::BadDatabits,
            -102 => ErrorKind::BadStopbits,
            -103 => ErrorKind::MsgToobig,
            -104 => ErrorKind::BadMallocMode,
            -105 => ErrorKind::TooManySegs,
            -106 => ErrorKind::BadI2cSeg,
            -107 => ErrorKind::BadSmbusCmd,
            -108 => ErrorKind::NotI2cGpio,
            -109 => ErrorKind::BadI2cWlen,
            -110 => ErrorKind::BadI2cRlen,
            -111 => ErrorKind::BadI2cCmd,
            -112 => ErrorKind::BadI2cBaud,
            -113 => ErrorKind::ChainLoopCnt,
            -114 => ErrorKind::BadChainLoop,
            -115 => ErrorKind::ChainCounter,
            -116 => ErrorKind::BadChainCmd,
            -117 => ErrorKind::BadChainDelay,
            -118 => ErrorKind::ChainNesting,
            -119 => ErrorKind::ChainTooBig,
            -120 => ErrorKind::Deprecated,
            -121 => ErrorKind::BadSerInvert,
            -122 => ErrorKind::BadEdge,
            -123 => ErrorKind::BadIsrInit,
            -124 => ErrorKind::BadForever,
            -125 => ErrorKind::BadFilter,
            -126 => ErrorKind::BadPad,
            -127 => ErrorKind::BadStrength,
            -128 => ErrorKind::FilOpenFailed,
            -129 => ErrorKind::BadFileMode,
            -130 => ErrorKind::BadFileFlag,
            -131 => ErrorKind::BadFileRead,
            -132 => ErrorKind::BadFileWrite,
            -133 => ErrorKind::FileNotRopen,
            -134 => ErrorKind::FileNotWopen,
            -135 => ErrorKind::BadFileSeek,
            -136 => ErrorKind::NoFileMatch,
            -137 => ErrorKind::NoFileAccess,
            -138 => ErrorKind::FileIsADir,
            -139 => ErrorKind::BadShellStatus,
            -140 => ErrorKind::BadScriptName,
            -141 => ErrorKind::BadSpiBaud,
            -142 => ErrorKind::NotSpiGpio,
            -143 => ErrorKind::BadEventId,
            -144 => ErrorKind::CmdInterrupted,
            -145 => ErrorKind::NotOnBcm2711,
            -146 => ErrorKind::OnlyOnBcm2711,
            -2000 => ErrorKind::BadSend,
            -2001 => ErrorKind::BadRecv,
            -2002 => ErrorKind::BadGetaddrinfo,
            -2003 => ErrorKind::BadConnect,
            -2004 => ErrorKind::BadSocket,
            -2005 => ErrorKind::BadNoib,
            -2006 => ErrorKind::DuplicateCallback,
            -2007 => ErrorKind::BadMalloc,
            -2008 => ErrorKind::BadCallback,
            -2009 => ErrorKind::NotifyFailed,
            -2010 => ErrorKind::CallbackNotFound,
            -2011 => ErrorKind::UnconnectedPi,
            -2012 => ErrorKind::TooManyPis,
            _ => ErrorKind::Other,
        }
    }

    /// The status by which the daemon reports the kind; 0, which is no failure, for
    /// [`ErrorKind::Other`].
    pub open spec fn code(self) -> int {
        match self {
            ErrorKind::InitFailed => -1,
            ErrorKind::BadUserGpio => -2,
            ErrorKind::BadGpio => -3,
            ErrorKind::BadMode => -4,
            ErrorKind::BadLevel => -5,
            ErrorKind::BadPud => -6,
            ErrorKind::BadPulsewidth => -7,
            ErrorKind::BadDutycycle => -8,
            ErrorKind::BadTimer => -9,
            ErrorKind::BadMs => -10,
            ErrorKind::BadTimetype => -11,
            ErrorKind::BadSeconds => -12,
            ErrorKind::BadMicros => -13,
            ErrorKind::TimerFailed => -14,
            ErrorKind::BadWdogTimeout => -15,
            ErrorKind::NoAlertFunc => -16,
            ErrorKind::BadClkPeriph => -17,
            ErrorKind::BadClkSource => -18,
            ErrorKind::BadClkMicros => -19,
            ErrorKind::BadBufMillis => -20,
            ErrorKind::BadDutyrange => -21,
            ErrorKind::BadSignum => -22,
            ErrorKind::BadPathname => -23,
            ErrorKind::NoHandle => -24,
            ErrorKind::BadHandle => -25,
            ErrorKind::BadIfFlags => -26,
            ErrorKind::BadChannel => -27,
            ErrorKind::BadSocketPort => -28,
            ErrorKind::BadFifoCommand => -29,
            ErrorKind::BadSecoChannel => -30,
            ErrorKind::NotInitialised => -31,
            ErrorKind::Initialised => -32,
            ErrorKind::BadWaveMode => -33,
            ErrorKind::BadCfgInternal => -34,
            ErrorKind::BadWaveBaud => -35,
            ErrorKind::TooManyPulses => -36,
            ErrorKind::TooManyChars => -37,
            ErrorKind::NotSerialGpio => -38,
            ErrorKind::BadSerialStruc => -39,
            ErrorKind::BadSerialBuf => -40,
            ErrorKind::NotPermitted => -41,
            ErrorKind::SomePermitted => -42,
            ErrorKind::BadWvscCommnd => -43,
            ErrorKind::BadWvsmCommnd => -44,
            ErrorKind::BadWvspCommnd => -45,
            ErrorKind::BadPulselen => -46,
            ErrorKind::BadScript => -47,
            ErrorKind::BadScriptId => -48,
            ErrorKind::BadSerOffset => -49,
            ErrorKind::GpioInUse => -50,
            ErrorKind::BadSerialCount => -51,
            ErrorKind::BadParamNum => -52,
            ErrorKind::DupTag => -53,
            ErrorKind::TooManyTags => -54,
            ErrorKind::BadScriptCmd => -55,
            ErrorKind::BadVarNum => -56,
            ErrorKind::NoScriptRoom => -57,
            ErrorKind::NoMemory => -58,
            ErrorKind::SockReadFailed => -59,
            ErrorKind::SockWritFailed => -60,
            ErrorKind::TooManyParam => -61,
            ErrorKind::ScriptNotReady => -62,
            ErrorKind::BadTag => -63,
            ErrorKind::BadMicsDelay => -64,
            ErrorKind::BadMilsDelay => -65,
            ErrorKind::BadWaveId => -66,
            ErrorKind::TooManyCbs => -67,
            ErrorKind::TooManyOol => -68,
            ErrorKind::EmptyWaveform => -69,
            ErrorKind::NoWaveformId => -70,
            ErrorKind::I2cOpenFailed => -71,
            ErrorKind::SerOpenFailed => -72,
            ErrorKind::SpiOpenFailed => -73,
            ErrorKind::BadI2cBus => -74,
            ErrorKind::BadI2cAddr => -75,
            ErrorKind::BadSpiChannel => -76,
            ErrorKind::BadFlags => -77,
            ErrorKind::BadSpiSpeed => -78,
            ErrorKind::BadSerDevice => -79,
            ErrorKind::BadSerSpeed => -80,
            ErrorKind::BadParam => -81,
            ErrorKind::I2cWriteFailed => -82,
            ErrorKind::I2cReadFailed => -83,
            ErrorKind::BadSpiCount => -84,
            ErrorKind::SerWriteFailed => -85,
            ErrorKind::SerReadFailed => -86,
            ErrorKind::SerReadNoData => -87,
            ErrorKind::UnknownCommand => -88,
            ErrorKind::SpiXferFailed => -89,
            ErrorKind::BadPointer => -90,
            ErrorKind::NoAuxSpi => -91,
            ErrorKind::NotPwmGpio => -92,
            ErrorKind::NotServoGpio => -93,
            ErrorKind::NotHclkGpio => -94,
            ErrorKind::NotHpwmGpio => -95,
            ErrorKind::BadHpwmFreq => -96,
            ErrorKind::BadHpwmDuty => -97,
            ErrorKind::BadHclkFreq => -98,
            ErrorKind::BadHclkPass => -99,
            ErrorKind::HpwmIllegal => -100,
            ErrorKind::BadDatabits => -101,
            ErrorKind::BadStopbits => -102,
            ErrorKind::MsgToobig => -103,
            ErrorKind::BadMallocMode => -104,
            ErrorKind::TooManySegs => -105,
            ErrorKind::BadI2cSeg => -106,
            ErrorKind::BadSmbusCmd => -107,
            ErrorKind::NotI2cGpio => -108,
            ErrorKind::BadI2cWlen => -109,
            ErrorKind::BadI2cRlen => -110,
            ErrorKind::BadI2cCmd => -111,
            ErrorKind::BadI2cBaud => -112,
            ErrorKind::ChainLoopCnt => -113,
            ErrorKind::BadChainLoop => -114,
            ErrorKind::ChainCounter => -115,
            ErrorKind::BadChainCmd => -116,
            ErrorKind::BadChainDelay => -117,
            ErrorKind::ChainNesting => -118,
            ErrorKind::ChainTooBig => -119,
            ErrorKind::Deprecated => -120,
            ErrorKind::BadSerInvert => -121,
            ErrorKind::BadEdge => -122,
            ErrorKind::BadIsrInit => -123,
            ErrorKind::BadForever => -124,
            ErrorKind::BadFilter => -125,
            ErrorKind::BadPad => -126,
            ErrorKind::BadStrength => -127,
            ErrorKind::FilOpenFailed => -128,
            ErrorKind::BadFileMode => -129,
            ErrorKind::BadFileFlag => -130,
            ErrorKind::BadFileRead => -131,
            ErrorKind::BadFileWrite => -132,
            ErrorKind::FileNotRopen => -133,
            ErrorKind::FileNotWopen => -134,
            ErrorKind::BadFileSeek => -135,
            ErrorKind::NoFileMatch => -136,
            ErrorKind::NoFileAccess => -137,
            ErrorKind::FileIsADir => -138,
            ErrorKind::BadShellStatus => -139,
            ErrorKind::BadScriptName => -140,
            ErrorKind::BadSpiBaud => -141,
            ErrorKind::NotSpiGpio => -142,
            ErrorKind::BadEventId => -143,
            ErrorKind::CmdInterrupted => -144,
            ErrorKind::NotOnBcm2711 => -145,
            ErrorKind::OnlyOnBcm2711 => -146,
            ErrorKind::BadSend => -2000,
            ErrorKind::BadRecv => -2001,
            ErrorKind::BadGetaddrinfo => -2002,
            ErrorKind::BadConnect => -2003,
            ErrorKind::BadSocket => -2004,
            ErrorKind::BadNoib => -2005,
            ErrorKind::DuplicateCallback => -2006,
            ErrorKind::BadMalloc => -2007,
            ErrorKind::BadCallback => -2008,
            ErrorKind::NotifyFailed => -2009,
            ErrorKind::CallbackNotFound => -2010,
            ErrorKind::UnconnectedPi => -2011,
            ErrorKind::TooManyPis => -2012,
            ErrorKind::Other => 0,
        }
    }

    /// The kind's description.
    pub open spec fn message(self) -> Seq<char> {
        match self {
            ErrorKind::InitFailed => "pigpio initialisation failed"@,
            ErrorKind::BadUserGpio => "GPIO not 0-31"@,
            ErrorKind::BadGpio => "GPIO not 0-53"@,
            ErrorKind::BadMode => "mode not 0-7"@,
            ErrorKind::BadLevel => "level not 0-1"@,
            ErrorKind::BadPud => "pud not 0-2"@,
            ErrorKind::BadPulsewidth => "pulsewidth not 0 or 500-2500"@,
            ErrorKind::BadDutycycle => "dutycycle not 0-range (default 255)"@,
            ErrorKind::BadTimer => "timer not 0-9"@,
            ErrorKind::BadMs => "ms not 10-60000"@,
            ErrorKind::BadTimetype => "timetype not 0-1"@,
            ErrorKind::BadSeconds => "seconds < 0"@,
            ErrorKind::BadMicros => "micros not 0-999999"@,
            ErrorKind::TimerFailed => "gpioSetTimerFunc failed"@,
            ErrorKind::BadWdogTimeout => "timeout not 0-60000"@,
            ErrorKind::NoAlertFunc => "DEPRECATED"@,
            ErrorKind::BadClkPeriph => "clock peripheral not 0-1"@,
            ErrorKind::BadClkSource => "DEPRECATED"@,
            ErrorKind::BadClkMicros => "clock micros not 1, 2, 4, 5, 8, or 10"@,
            ErrorKind::BadBufMillis => "buf millis not 100-10000"@,
            ErrorKind::BadDutyrange => "dutycycle range not 25-40000"@,
            ErrorKind::BadSignum => "signum not 0-63"@,
            ErrorKind::BadPathname => "can't open pathname"@,
            ErrorKind::NoHandle => "no handle available"@,
            ErrorKind::BadHandle => "unknown handle"@,
            ErrorKind::BadIfFlags => "ifFlags > 4"@,
            ErrorKind::BadChannel => "DMA channel not 0-14"@,
            ErrorKind::BadSocketPort => "socket port not 1024-30000"@,
            ErrorKind::BadFifoCommand => "unknown fifo command"@,
            ErrorKind::BadSecoChannel => "DMA secondary channel not 0-14"@,
            ErrorKind::NotInitialised => "function called before gpioInitialise"@,
            ErrorKind::Initialised => "function called after gpioInitialise"@,
            ErrorKind::BadWaveMode => "waveform mode not 0-1"@,
            ErrorKind::BadCfgInternal => "bad parameter in gpioCfgInternals call"@,
            ErrorKind::BadWaveBaud => "baud rate not 50-250K(RX)/50-1M(TX)"@,
            ErrorKind::TooManyPulses => "waveform has too many pulses"@,
            ErrorKind::TooManyChars => "waveform has too many chars"@,
            ErrorKind::NotSerialGpio => "no bit bang serial read in progress on GPIO"@,
            ErrorKind::BadSerialStruc => "bad (null) serial structure parameter"@,
            ErrorKind::BadSerialBuf => "bad (null) serial buf parameter"@,
            ErrorKind::NotPermitted => "no permission to update GPIO"@,
            ErrorKind::SomePermitted => "no permission to update one or more GPIO"@,
            ErrorKind::BadWvscCommnd => "bad WVSC subcommand"@,
            ErrorKind::BadWvsmCommnd => "bad WVSM subcommand"@,
            ErrorKind::BadWvspCommnd => "bad WVSP subcommand"@,
            ErrorKind::BadPulselen => "trigger pulse length not 1-100"@,
            ErrorKind::BadScript => "invalid script"@,
            ErrorKind::BadScriptId => "unknown script id"@,
            ErrorKind::BadSerOffset => "add serial data offset > 30 minute"@,
            ErrorKind::GpioInUse => "GPIO already in use"@,
            ErrorKind::BadSerialCount => "must read at least a byte at a time"@,
            ErrorKind::BadParamNum => "script parameter id not 0-9"@,
            ErrorKind::DupTag => "script has duplicate tag"@,
            ErrorKind::TooManyTags => "script has too many tags"@,
            ErrorKind::BadScriptCmd => "illegal script command"@,
            ErrorKind::BadVarNum => "script variable id not 0-149"@,
            ErrorKind::NoScriptRoom => "no more room for scripts"@,
            ErrorKind::NoMemory => "can't allocate temporary memory"@,
            ErrorKind::SockReadFailed => "socket read failed"@,
            ErrorKind::SockWritFailed => "socket write failed"@,
            ErrorKind::TooManyParam => "too many script parameters (> 10)"@,
            ErrorKind::ScriptNotReady => "script initialising"@,
            ErrorKind::BadTag => "script has unresolved tag"@,
            ErrorKind::BadMicsDelay => "bad MICS delay (too large)"@,
            ErrorKind::BadMilsDelay => "bad MILS delay (too large)"@,
            ErrorKind::BadWaveId => "non existent wave id"@,
            ErrorKind::TooManyCbs => "No more CBs for waveform"@,
            ErrorKind::TooManyOol => "No more OOL for waveform"@,
            ErrorKind::EmptyWaveform => "attempt to create an empty waveform"@,
            ErrorKind::NoWaveformId => "no more waveform ids"@,
            ErrorKind::I2cOpenFailed => "can't open I2C device"@,
            ErrorKind::SerOpenFailed => "can't open serial device"@,
            ErrorKind::SpiOpenFailed => "can't open SPI device"@,
            ErrorKind::BadI2cBus => "bad I2C bus"@,
            ErrorKind::BadI2cAddr => "bad I2C address"@,
            ErrorKind::BadSpiChannel => "bad SPI channel"@,
            ErrorKind::BadFlags => "bad i2c/spi/ser open flags"@,
            ErrorKind::BadSpiSpeed => "bad SPI speed"@,
            ErrorKind::BadSerDevice => "bad serial device name"@,
            ErrorKind::BadSerSpeed => "bad serial baud rate"@,
            ErrorKind::BadParam => "bad i2c/spi/ser parameter"@,
            ErrorKind::I2cWriteFailed => "I2C write failed"@,
            ErrorKind::I2cReadFailed => "I2C read failed"@,
            ErrorKind::BadSpiCount => "bad SPI count"@,
            ErrorKind::SerWriteFailed => "ser write failed"@,
            ErrorKind::SerReadFailed => "ser read failed"@,
            ErrorKind::SerReadNoData => "ser read no data available"@,
            ErrorKind::UnknownCommand => "unknown command"@,
            ErrorKind::SpiXferFailed => "spi xfer/read/write failed"@,
            ErrorKind::BadPointer => "bad (NULL) pointer"@,
            ErrorKind::NoAuxSpi => "no auxiliary SPI on Pi A or B"@,
            ErrorKind::NotPwmGpio => "GPIO is not in use for PWM"@,
            ErrorKind::NotServoGpio => "GPIO is not in use for servo pulses"@,
            ErrorKind::NotHclkGpio => "GPIO has no hardware clock"@,
            ErrorKind::NotHpwmGpio => "GPIO has no hardware PWM"@,
            ErrorKind::BadHpwmFreq => "invalid hardware PWM frequency"@,
            ErrorKind::BadHpwmDuty => "hardware PWM dutycycle not 0-1M"@,
            ErrorKind::BadHclkFreq => "invalid hardware clock frequency"@,
            ErrorKind::BadHclkPass => "need password to use hardware clock 1"@,
            ErrorKind::HpwmIllegal => "illegal, PWM in use for main clock"@,
            ErrorKind::BadDatabits => "serial data bits not 1-32"@,
            ErrorKind::BadStopbits => "serial (half) stop bits not 2-8"@,
            ErrorKind::MsgToobig => "socket/pipe message too big"@,
            ErrorKind::BadMallocMode => "bad memory allocation mode"@,
            ErrorKind::TooManySegs => "too many I2C transaction segments"@,
            ErrorKind::BadI2cSeg => "an I2C transaction segment failed"@,
            ErrorKind::BadSmbusCmd => "SMBus command not supported by driver"@,
            ErrorKind::NotI2cGpio => "no bit bang I2C in progress on GPIO"@,
            ErrorKind::BadI2cWlen => "bad I2C write length"@,
            ErrorKind::BadI2cRlen => "bad I2C read length"@,
            ErrorKind::BadI2cCmd => "bad I2C command"@,
            ErrorKind::BadI2cBaud => "bad I2C baud rate, not 50-500k"@,
            ErrorKind::ChainLoopCnt => "bad chain loop count"@,
            ErrorKind::BadChainLoop => "empty chain loop"@,
            ErrorKind::ChainCounter => "too many chain counters"@,
            ErrorKind::BadChainCmd => "bad chain command"@,
            ErrorKind::BadChainDelay => "bad chain delay micros"@,
            ErrorKind::ChainNesting => "chain counters nested too deeply"@,
            ErrorKind::ChainTooBig => "chain is too long"@,
            ErrorKind::Deprecated => "deprecated function removed"@,
            ErrorKind::BadSerInvert => "bit bang serial invert not 0 or 1"@,
            ErrorKind::BadEdge => "bad ISR edge, not 1, 1, or 2"@,
            ErrorKind::BadIsrInit => "bad ISR initialisation"@,
            ErrorKind::BadForever => "loop forever must be last chain command"@,
            ErrorKind::BadFilter => "bad filter parameter"@,
            ErrorKind::BadPad => "bad pad number"@,
            ErrorKind::BadStrength => "bad pad drive strength"@,
            ErrorKind::FilOpenFailed => "file open failed"@,
            ErrorKind::BadFileMode => "bad file mode"@,
            ErrorKind::BadFileFlag => "bad file flag"@,
            ErrorKind::BadFileRead => "bad file read"@,
            ErrorKind::BadFileWrite => "bad file write"@,
            ErrorKind::FileNotRopen => "file not open for read"@,
            ErrorKind::FileNotWopen => "file not open for write"@,
            ErrorKind::BadFileSeek => "bad file seek"@,
            ErrorKind::NoFileMatch => "no files match pattern"@,
            ErrorKind::NoFileAccess => "no permission to access file"@,
            ErrorKind::FileIsADir => "file is a directory"@,
            ErrorKind::BadShellStatus => "bad shell return status"@,
            ErrorKind::BadScriptName => "bad script name"@,
            ErrorKind::BadSpiBaud => "bad SPI baud rate, not 50-500k"@,
            ErrorKind::NotSpiGpio => "no bit bang SPI in progress on GPIO"@,
            ErrorKind::BadEventId => "bad event id"@,
            ErrorKind::CmdInterrupted => "command interrupted, Python"@,
            ErrorKind::NotOnBcm2711 => "not available on BCM2711"@,
            ErrorKind::OnlyOnBcm2711 => "only available on BCM2711"@,
            ErrorKind::BadSend => "failed to send to pigpiod"@,
            ErrorKind::BadRecv => "failed to receive from pigpiod"@,
            ErrorKind::BadGetaddrinfo => "failed to find address of pigpiod"@,
            ErrorKind::BadConnect => "failed to connect to pigpiod"@,
            ErrorKind::BadSocket => "failed to create socket"@,
            ErrorKind::BadNoib => "failed to open notification in band"@,
            ErrorKind::DuplicateCallback => "identical callback exists"@,
            ErrorKind::BadMalloc => "failed to malloc"@,
            ErrorKind::BadCallback => "bad callback parameter"@,
            ErrorKind::NotifyFailed => "failed to create notification thread"@,
            ErrorKind::CallbackNotFound => "callback not found"@,
            ErrorKind::UnconnectedPi => "not connected to Pi"@,
            ErrorKind::TooManyPis => "too many connected Pis"@,
            ErrorKind::Other => "unknown error"@,
        }
    }

    /// The kind's description.
    pub fn as_str(&self) -> (text: &'static str)
        ensures
            text@ == self.message(),
    {
        match self {
            Self::InitFailed => "pigpio initialisation failed",
            Self::BadUserGpio => "GPIO not 0-31",
            Self::BadGpio => "GPIO not 0-53",
            Self::BadMode => "mode not 0-7",
            Self::BadLevel => "level not 0-1",
            Self::BadPud => "pud not 0-2",
            Self::BadPulsewidth => "pulsewidth not 0 or 500-2500",
            Self::BadDutycycle => "dutycycle not 0-range (default 255)",
            Self::BadTimer => "timer not 0-9",
            Self::BadMs => "ms not 10-60000",
            Self::BadTimetype => "timetype not 0-1",
            Self::BadSeconds => "seconds < 0",
            Self::BadMicros => "micros not 0-999999",
            Self::TimerFailed => "gpioSetTimerFunc failed",
            Self::BadWdogTimeout => "timeout not 0-60000",
            Self::NoAlertFunc => "DEPRECATED",
            Self::BadClkPeriph => "clock peripheral not 0-1",
            Self::BadClkSource => "DEPRECATED",
            Self::BadClkMicros => "clock micros not 1, 2, 4, 5, 8, or 10",
            Self::BadBufMillis => "buf millis not 100-10000",
            Self::BadDutyrange => "dutycycle range not 25-40000",
            Self::BadSignum => "signum not 0-63",
            Self::BadPathname => "can't open pathname",
            Self::NoHandle => "no handle available",
            Self::BadHandle => "unknown handle",
            Self::BadIfFlags => "ifFlags > 4",
            Self::BadChannel => "DMA channel not 0-14",
            Self::BadSocketPort => "socket port not 1024-30000",
            Self::BadFifoCommand => "unknown fifo command",
            Self::BadSecoChannel => "DMA secondary channel not 0-14",
            Self::NotInitialised => "function called before gpioInitialise",
            Self::Initialised => "function called after gpioInitialise",
            Self::BadWaveMode => "waveform mode not 0-1",
            Self::BadCfgInternal => "bad parameter in gpioCfgInternals call",
            Self::BadWaveBaud => "baud rate not 50-250K(RX)/50-1M(TX)",
            Self::TooManyPulses => "waveform has too many pulses",
            Self::TooManyChars => "waveform has too many chars",
            Self::NotSerialGpio => "no bit bang serial read in progress on GPIO",
            Self::BadSerialStruc => "bad (null) serial structure parameter",
            Self::BadSerialBuf => "bad (null) serial buf parameter",
            Self::NotPermitted => "no permission to update GPIO",
            Self::SomePermitted => "no permission to update one or more GPIO",
            Self::BadWvscCommnd => "bad WVSC subcommand",
            Self::BadWvsmCommnd => "bad WVSM subcommand",
            Self::BadWvspCommnd => "bad WVSP subcommand",
            Self::BadPulselen => "trigger pulse length not 1-100",
            Self::BadScript => "invalid script",
            Self::BadScriptId => "unknown script id",
            Self::BadSerOffset => "add serial data offset > 30 minute",
            Self::GpioInUse => "GPIO already in use",
            Self::BadSerialCount => "must read at least a byte at a time",
            Self::BadParamNum => "script parameter id not 0-9",
            Self::DupTag => "script has duplicate tag",
            Self::TooManyTags => "script has too many tags",
            Self::BadScriptCmd => "illegal script command",
            Self::BadVarNum => "script variable id not 0-149",
            Self::NoScriptRoom => "no more room for scripts",
            Self::NoMemory => "can't allocate temporary memory",
            Self::SockReadFailed => "socket read failed",
            Self::SockWritFailed => "socket write failed",
            Self::TooManyParam => "too many script parameters (> 10)",
            Self::ScriptNotReady => "script initialising",
            Self::BadTag => "script has unresolved tag",
            Self::BadMicsDelay => "bad MICS delay (too large)",
            Self::BadMilsDelay => "bad MILS delay (too large)",
            Self::BadWaveId => "non existent wave id",
            Self::TooManyCbs => "No more CBs for waveform",
            Self::TooManyOol => "No more OOL for waveform",
            Self::EmptyWaveform => "attempt to create an empty waveform",
            Self::NoWaveformId => "no more waveform ids",
            Self::I2cOpenFailed => "can't open I2C device",
            Self::SerOpenFailed => "can't open serial device",
            Self::SpiOpenFailed => "can't open SPI device",
            Self::BadI2cBus => "bad I2C bus",
            Self::BadI2cAddr => "bad I2C address",
            Self::BadSpiChannel => "bad SPI channel",
            Self::BadFlags => "bad i2c/spi/ser open flags",
            Self::BadSpiSpeed => "bad SPI speed",
            Self::BadSerDevice => "bad serial device name",
            Self::BadSerSpeed => "bad serial baud rate",
            Self::BadParam => "bad i2c/spi/ser parameter",
            Self::I2cWriteFailed => "I2C write failed",
            Self::I2cReadFailed => "I2C read failed",
            Self::BadSpiCount => "bad SPI count",
            Self::SerWriteFailed => "ser write failed",
            Self::SerReadFailed => "ser read failed",
            Self::SerReadNoData => "ser read no data available",
            Self::UnknownCommand => "unknown command",
            Self::SpiXferFailed => "spi xfer/read/write failed",
            Self::BadPointer => "bad (NULL) pointer",
            Self::NoAuxSpi => "no auxiliary SPI on Pi A or B",
            Self::NotPwmGpio => "GPIO is not in use for PWM",
            Self::NotServoGpio => "GPIO is not in use for servo pulses",
            Self::NotHclkGpio => "GPIO has no hardware clock",
            Self::NotHpwmGpio => "GPIO has no hardware PWM",
            Self::BadHpwmFreq => "invalid hardware PWM frequency",
            Self::BadHpwmDuty => "hardware PWM dutycycle not 0-1M",
            Self::BadHclkFreq => "invalid hardware clock frequency",
            Self::BadHclkPass => "need password to use hardware clock 1",
            Self::HpwmIllegal => "illegal, PWM in use for main clock",
            Self::BadDatabits => "serial data bits not 1-32",
            Self::BadStopbits => "serial (half) stop bits not 2-8",
            Self::MsgToobig => "socket/pipe message too big",
            Self::BadMallocMode => "bad memory allocation mode",
            Self::TooManySegs => "too many I2C transaction segments",
            Self::BadI2cSeg => "an I2C transaction segment failed",
            Self::BadSmbusCmd => "SMBus command not supported by driver",
            Self::NotI2cGpio => "no bit bang I2C in progress on GPIO",
            Self::BadI2cWlen => "bad I2C write length",
            Self::BadI2cRlen => "bad I2C read length",
            Self::BadI2cCmd => "bad I2C command",
            Self::BadI2cBaud => "bad I2C baud rate, not 50-500k",
            Self::ChainLoopCnt => "bad chain loop count",
            Self::BadChainLoop => "empty chain loop",
            Self::ChainCounter => "too many chain counters",
            Self::BadChainCmd => "bad chain command",
            Self::BadChainDelay => "bad chain delay micros",
            Self::ChainNesting => "chain counters nested too deeply",
            Self::ChainTooBig => "chain is too long",
            Self::Deprecated => "deprecated function removed",
            Self::BadSerInvert => "bit bang serial invert not 0 or 1",
            Self::BadEdge => "bad ISR edge, not 1, 1, or 2",
            Self::BadIsrInit => "bad ISR initialisation",
            Self::BadForever => "loop forever must be last chain command",
            Self::BadFilter => "bad filter parameter",
            Self::BadPad => "bad pad number",
            Self::BadStrength => "bad pad drive strength",
            Self::FilOpenFailed => "file open failed",
            Self::BadFileMode => "bad file mode",
            Self::BadFileFlag => "bad file flag",
            Self::BadFileRead => "bad file read",
            Self::BadFileWrite => "bad file write",
            Self::FileNotRopen => "file not open for read",
            Self::FileNotWopen => "file not open for write",
            Self::BadFileSeek => "bad file seek",
            Self::NoFileMatch => "no files match pattern",
            Self::NoFileAccess => "no permission to access file",
            Self::FileIsADir => "file is a directory",
            Self::BadShellStatus => "bad shell return status",
            Self::BadScriptName => "bad script name",
            Self::BadSpiBaud => "bad SPI baud rate, not 50-500k",
            Self::NotSpiGpio => "no bit bang SPI in progress on GPIO",
            Self::BadEventId => "bad event id",
            Self::CmdInterrupted => "command interrupted, Python",
            Self::NotOnBcm2711 => "not available on BCM2711",
            Self::OnlyOnBcm2711 => "only available on BCM2711",
            Self::BadSend => "failed to send to pigpiod",
            Self::BadRecv => "failed to receive from pigpiod",
            Self::BadGetaddrinfo => "failed to find address of pigpiod",
            Self::BadConnect => "failed to connect to pigpiod",
            Self::BadSocket => "failed to create socket",
            Self::BadNoib => "failed to open notification in band",
            Self::DuplicateCallback => "identical callback exists",
            Self::BadMalloc => "failed to malloc",
            Self::BadCallback => "bad callback parameter",
            Self::NotifyFailed => "failed to create notification thread",
            Self::CallbackNotFound => "callback not found",
            Self::UnconnectedPi => "not connected to Pi",
            Self::TooManyPis => "too many connected Pis",
            Self::Other => "unknown error",
        }
    }
}

impl From<i32> for ErrorKind {
    fn from(value: i32) -> (kind: Self) {
        match value {
            -1 => Self::InitFailed,
            -2 => Self::BadUserGpio,
            -3 => Self::BadGpio,
            -4 => Self::BadMode,
            -5 => Self::BadLevel,
            -6 => Self::BadPud,
            -7 => Self::BadPulsewidth,
            -8 => Self::BadDutycycle,
            -9 => Self::BadTimer,
            -10 => Self::BadMs,
            -11 => Self::BadTimetype,
            -12 => Self::BadSeconds,
            -13 => Self::BadMicros,
            -14 => Self::TimerFailed,
            -15 => Self::BadWdogTimeout,
            -16 => Self::NoAlertFunc,
            -17 => Self::BadClkPeriph,
            -18 => Self::BadClkSource,
            -19 => Self::BadClkMicros,
            -20 => Self::BadBufMillis,
            -21 => Self::BadDutyrange,
            -22 => Self::BadSignum,
            -23 => Self::BadPathname,
            -24 => Self::NoHandle,
            -25 => Self::BadHandle,
            -26 => Self::BadIfFlags,
            -27 => Self::BadChannel,
            -28 => Self::BadSocketPort,
            -29 => Self::BadFifoCommand,
            -30 => Self::BadSecoChannel,
            -31 => Self::NotInitialised,
            -32 => Self::Initialised,
            -33 => Self::BadWaveMode,
            -34 => Self::BadCfgInternal,
            -35 => Self::BadWaveBaud,
            -36 => Self::TooManyPulses,
            -37 => Self::TooManyChars,
            -38 => Self::NotSerialGpio,
            -39 => Self::BadSerialStruc,
            -40 => Self::BadSerialBuf,
            -41 => Self::NotPermitted,
            -42 => Self::SomePermitted,
            -43 => Self::BadWvscCommnd,
            -44 => Self::BadWvsmCommnd,
            -45 => Self::BadWvspCommnd,
            -46 => Self::BadPulselen,
            -47 => Self::BadScript,
            -48 => Self::BadScriptId,
            -49 => Self::BadSerOffset,
            -50 => Self::GpioInUse,
            -51 => Self::BadSerialCount,
            -52 => Self::BadParamNum,
            -53 => Self::DupTag,
            -54 => Self::TooManyTags,
            -55 => Self::BadScriptCmd,
            -56 => Self::BadVarNum,
            -57 => Self::NoScriptRoom,
            -58 => Self::NoMemory,
            -59 => Self::SockReadFailed,
            -60 => Self::SockWritFailed,
            -61 => Self::TooManyParam,
            -62 => Self::ScriptNotReady,
            -63 => Self::BadTag,
            -64 => Self::BadMicsDelay,
            -65 => Self::BadMilsDelay,
            -66 => Self::BadWaveId,
            -67 => Self::TooManyCbs,
            -68 => Self::TooManyOol,
            -69 => Self::EmptyWaveform,
            -70 => Self::NoWaveformId,
            -71 => Self::I2cOpenFailed,
            -72 => Self::SerOpenFailed,
            -73 => Self::SpiOpenFailed,
            -74 => Self::BadI2cBus,
            -75 => Self::BadI2cAddr,
            -76 => Self::BadSpiChannel,
            -77 => Self::BadFlags,
            -78 => Self::BadSpiSpeed,
            -79 => Self::BadSerDevice,
            -80 => Self::BadSerSpeed,
            -81 => Self::BadParam,
            -82 => Self::I2cWriteFailed,
            -83 => Self::I2cReadFailed,
            -84 => Self::BadSpiCount,
            -85 => Self::SerWriteFailed,
            -86 => Self::SerReadFailed,
            -87 => Self::SerReadNoData,
            -88 => Self::UnknownCommand,
            -89 => Self::SpiXferFailed,
            -90 => Self::BadPointer,
            -91 => Self::NoAuxSpi,
            -92 => Self::NotPwmGpio,
            -93 => Self::NotServoGpio,
            -94 => Self::NotHclkGpio,
            -95 => Self::NotHpwmGpio,
            -96 => Self::BadHpwmFreq,
            -97 => Self::BadHpwmDuty,
            -98 => Self::BadHclkFreq,
            -99 => Self::BadHclkPass,
            -100 => Self::HpwmIllegal,
            -101 => Self::BadDatabits,
            -102 => Self::BadStopbits,
            -103 => Self::MsgToobig,
            -104 => Self::BadMallocMode,
            -105 => Self::TooManySegs,
            -106 => Self::BadI2cSeg,
            -107 => Self::BadSmbusCmd,
            -108 => Self::NotI2cGpio,
            -109 => Self::BadI2cWlen,
            -110 => Self::BadI2cRlen,
            -111 => Self::BadI2cCmd,
            -112 => Self::BadI2cBaud,
            -113 => Self::ChainLoopCnt,
            -114 => Self::BadChainLoop,
            -115 => Self::ChainCounter,
            -116 => Self::BadChainCmd,
            -117 => Self::BadChainDelay,
            -118 => Self::ChainNesting,
            -119 => Self::ChainTooBig,
            -120 => Self::Deprecated,
            -121 => Self::BadSerInvert,
            -122 => Self::BadEdge,
            -123 => Self::BadIsrInit,
            -124 => Self::BadForever,
            -125 => Self::BadFilter,
            -126 => Self::BadPad,
            -127 => Self::BadStrength,
            -128 => Self::FilOpenFailed,
            -129 => Self::BadFileMode,
            -130 => Self::BadFileFlag,
            -131 => Self::BadFileRead,
            -132 => Self::BadFileWrite,
            -133 => Self::FileNotRopen,
            -134 => Self::FileNotWopen,
            -135 => Self::BadFileSeek,
            -136 => Self::NoFileMatch,
            -137 => Self::NoFileAccess,
            -138 => Self::FileIsADir,
            -139 => Self::BadShellStatus,
            -140 => Self::BadScriptName,
            -141 => Self::BadSpiBaud,
            -142 => Self::NotSpiGpio,
            -143 => Self::BadEventId,
            -144 => Self::CmdInterrupted,
            -145 => Self::NotOnBcm2711,
            -146 => Self::OnlyOnBcm2711,
            -2000 => Self::BadSend,
            -2001 => Self::BadRecv,
            -2002 => Self::BadGetaddrinfo,
            -2003 => Self::BadConnect,
            -2004 => Self::BadSocket,
            -2005 => Self::BadNoib,
            -2006 => Self::DuplicateCallback,
            -2007 => Self::BadMalloc,
            -2008 => Self::BadCallback,
            -2009 => Self::NotifyFailed,
            -2010 => Self::CallbackNotFound,
            -2011 => Self::UnconnectedPi,
            -2012 => Self::TooManyPis,
            _ => Self::Other,
        }
    }
}

impl vstd::std_specs::convert::FromSpecImpl<i32> for ErrorKind {
    open spec fn obeys_from_spec() -> bool {
        true
    }

    open spec fn from_spec(value: i32) -> ErrorKind {
        ErrorKind::of_code(value)
    }
}

/// The statuses that the daemon and its client library define.
pub open spec fn is_defined_status(code: int) -> bool {
    -146 <= code <= -1 || -2012 <= code <= -2000
}

/// Kinds and statuses correspond one to one: a defined status names a kind that
/// reports that very status, and every other status is [`ErrorKind::Other`].
pub proof fn status_names_its_kind(code: i32)
    ensures
        is_defined_status(code as int) ==> ErrorKind::of_code(code).code() == code,
        !is_defined_status(code as int) ==> ErrorKind::of_code(code) == ErrorKind::Other,
        ErrorKind::of_code(code) != ErrorKind::Other <==> is_defined_status(code as int),
{
}

/// Every kind but [`ErrorKind::Other`] reports a defined status, and that status
/// names the kind again.
pub proof fn kind_reports_its_status(kind: ErrorKind)
    requires
        kind != ErrorKind::Other,
    ensures
        is_defined_status(kind.code()),
        ErrorKind::of_code(kind.code() as i32) == kind,
{
}

/// A kind together with a description of the failure.
#[derive(Debug)]
pub struct Custom {
    kind: ErrorKind,
    error: String,
}

impl Custom {
    /// The kind that the failure was filed under.
    pub closed spec fn kind(self) -> ErrorKind {
        self.kind
    }

    /// The description of the failure.
    pub closed spec fn detail(self) -> Seq<char> {
        self.error@
    }
}

/// A failure: a status of the daemon, a bare kind, or a kind with a description.
#[derive(Debug)]
pub enum Error {
    Pi(i32),
    Simple(ErrorKind),
    Custom(Box<Custom>),
}

impl Error {
    /// The kind of the failure; a daemon status is classified by [`ErrorKind::of_code`].
    pub open spec fn kind_of(self) -> ErrorKind {
        match self {
            Error::Pi(code) => ErrorKind::of_code(code),
            Error::Simple(kind) => kind,
            Error::Custom(custom) => custom.kind(),
        }
    }

    /// The description that the failure was made with, if it was made with one.
    pub open spec fn detail(self) -> Option<Seq<char>> {
        match self {
            Error::Custom(custom) => Some(custom.detail()),
            _ => None,
        }
    }

    /// The daemon status that the failure was made from, if it was made from one.
    pub open spec fn status(self) -> Option<i32> {
        match self {
            Error::Pi(code) => Some(code),
            _ => None,
        }
    }

    /// A failure of the given kind with a description.
    pub fn new(kind: ErrorKind, error: String) -> (failure: Error)
        ensures
            failure is Custom,
            failure.kind_of() == kind,
            failure.detail() == Some(error@),
    {
        Error::Custom(Box::new(Custom { kind, error }))
    }

    /// A failure of kind [`ErrorKind::Other`] with a description.
    pub fn other(error: String) -> (failure: Error)
        ensures
            failure is Custom,
            failure.kind_of() == ErrorKind::Other,
            failure.detail() == Some(error@),
    {
        Self::new(ErrorKind::Other, error)
    }

    /// The kind of the failure.
    pub fn kind(&self) -> (kind: ErrorKind)
        ensures
            kind == self.kind_of(),
    {
        match self {
            Error::Pi(code) => ErrorKind::from(*code),
            Error::Simple(kind) => *kind,
            Error::Custom(c) => c.kind,
        }
    }

    /// The description, where the failure has one.
    pub fn get_ref(&self) -> (description: Option<&str>)
        ensures
            description is Some <==> self is Custom,
            description matches Some(text) ==> self.detail() == Some(text@),
    {
        match self {
            Error::Custom(c) => Some(c.error.as_str()),
            _ => None,
        }
    }

    /// Gives up the failure for its description, where it has one.
    pub fn into_inner(self) -> (description: Option<String>)
        ensures
            description is Some <==> self is Custom,
            description matches Some(text) ==> self.detail() == Some(text@),
    {
        match self {
            Error::Custom(c) => Some(c.error),
            _ => None,
        }
    }

    /// What the failure says: for a daemon status, the description of its kind, shown
    /// byte by byte as [`escaped`] shows it, and the status in brackets; for a bare
    /// kind, its description; else the description that the failure was made with.
    pub open spec fn text(self) -> Seq<char> {
        match self {
            Error::Pi(code) => escaped(vstd::utf8::encode_utf8(ErrorKind::of_code(code).message()))
                + " (pi error "@ + int_text(code as int) + ")"@,
            Error::Simple(kind) => kind.message(),
            Error::Custom(custom) => custom.detail(),
        }
    }

    /// What the failure says.
    pub fn to_text(&self) -> (text: String)
        ensures
            text@ == self.text(),
    {
        match self {
            Error::Pi(code) => {
                let description = ErrorKind::from(*code).as_str();
                let mut text = W(description.as_bytes()).to_text();
                text.append(" (pi error ");
                push_i64(&mut text, *code as i64);
                text.append(")");
                text
            },
            Error::Simple(kind) => String::from_str(kind.as_str()),
            Error::Custom(c) => c.error.clone(),
        }
    }

    /// The failure that the daemon reports by `code`.
    pub fn from_raw_pi_error(code: i32) -> (failure: Error)
        ensures
            failure == Error::Pi(code),
    {
        Error::Pi(code)
    }

    /// The daemon status, where the failure was made from one.
    pub fn raw_pi_error(&self) -> (code: Option<i32>)
        ensures
            code == self.status(),
    {
        match self {
            Error::Pi(code) => Some(*code),
            _ => None,
        }
    }
}

} // verus!
