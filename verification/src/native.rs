//! Whether filesystem operations can run without worker threads.

use vstd::prelude::*;

use crate::error::OpenError;

verus! {

#[verifier::external_type_specification]
#[verifier::external_body]
pub struct ExProbe(io_uring::Probe);

#[verifier::external_type_specification]
#[verifier::external_body]
pub struct ExDriverType(compio::driver::DriverType);

/// The systems that a connection may be opened on.
#[derive(Clone, Copy, Debug, PartialEq, Eq, Structural)]
pub enum Platform {
    Linux,
    MacOs,
    Other,
}

/// What the runtime that a call is made in executes its operations with.
#[derive(Clone, Copy, Debug, PartialEq, Eq, Structural)]
pub enum RuntimeDriver {
    /// io_uring.
    IoUring,
    /// Another driver, which leaves filesystem operations to worker threads.
    Fallback,
}

/// The driver executes its operations with io_uring.
pub uninterp spec fn uses_io_uring(driver: compio::driver::DriverType) -> bool;

/// Tests the type of a runtime's driver, with
/// `compio::driver::DriverType::is_iouring`. Claimed of it: the result is a
/// function of the type.
#[verifier::external_body]
fn is_iouring(driver: &compio::driver::DriverType) -> (io_uring: bool)
    ensures
        io_uring == uses_io_uring(*driver),
{
    driver.is_iouring()
}

impl RuntimeDriver {
    /// What a driver of the given type executes filesystem operations with.
    pub fn of(driver: &compio::driver::DriverType) -> (result: RuntimeDriver)
        ensures
            uses_io_uring(*driver) ==> result == RuntimeDriver::IoUring,
            !uses_io_uring(*driver) ==> result == RuntimeDriver::Fallback,
    {
        if is_iouring(driver) {
            RuntimeDriver::IoUring
        } else {
            RuntimeDriver::Fallback
        }
    }
}

/// The filesystem operations that the adapter makes.
#[derive(Clone, Copy, Debug, PartialEq, Eq, Structural)]
pub enum NativeOperation {
    OpenAt,
    Statx,
    Read,
    Write,
    Fsync,
    Ftruncate,
    Close,
}

/// The operations in the order in which they are probed.
pub open spec fn required() -> Seq<NativeOperation> {
    seq![
        NativeOperation::OpenAt,
        NativeOperation::Statx,
        NativeOperation::Read,
        NativeOperation::Write,
        NativeOperation::Fsync,
        NativeOperation::Ftruncate,
        NativeOperation::Close,
    ]
}

impl NativeOperation {
    /// The number of the operation in the io_uring interface.
    pub open spec fn number(self) -> u8 {
        match self {
            NativeOperation::OpenAt => 18,
            NativeOperation::Statx => 21,
            NativeOperation::Read => 22,
            NativeOperation::Write => 23,
            NativeOperation::Fsync => 3,
            NativeOperation::Ftruncate => 55,
            NativeOperation::Close => 19,
        }
    }

    /// The name under which a missing operation is reported.
    pub open spec fn name(self) -> Seq<char> {
        match self {
            NativeOperation::OpenAt => "OPENAT"@,
            NativeOperation::Statx => "STATX"@,
            NativeOperation::Read => "READ"@,
            NativeOperation::Write => "WRITE"@,
            NativeOperation::Fsync => "FSYNC"@,
            NativeOperation::Ftruncate => "FTRUNCATE"@,
            NativeOperation::Close => "CLOSE"@,
        }
    }

    /// The name under which a missing operation is reported.
    pub fn label(&self) -> (label: &'static str)
        ensures
            label@ == self.name(),
    {
        match self {
            NativeOperation::OpenAt => "OPENAT",
            NativeOperation::Statx => "STATX",
            NativeOperation::Read => "READ",
            NativeOperation::Write => "WRITE",
            NativeOperation::Fsync => "FSYNC",
            NativeOperation::Ftruncate => "FTRUNCATE",
            NativeOperation::Close => "CLOSE",
        }
    }
}

/// The numbers of the operations that a filled-in probe marks as supported.
pub uninterp spec fn supported_numbers(probe: io_uring::Probe) -> Set<u8>;

/// Looks an operation up in a probe, with `io_uring::Probe::is_supported`.
/// Claimed of it: the result is whether the number is among those that the
/// probe holds as supported.
#[verifier::external_body]
fn is_supported(probe: &io_uring::Probe, number: u8) -> (supported: bool)
    ensures
        supported == supported_numbers(*probe).contains(number),
{
    probe.is_supported(number)
}

/// The constant `io_uring::opcode::OpenAt::CODE`. Claimed of it: its value, which
/// the kernel interface fixes for every architecture.
#[verifier::external_body]
fn open_at_code() -> (number: u8)
    ensures
        number == 18,
{
    io_uring::opcode::OpenAt::CODE
}

/// The constant `io_uring::opcode::Statx::CODE`. Claimed of it: its value, which
/// the kernel interface fixes for every architecture.
#[verifier::external_body]
fn statx_code() -> (number: u8)
    ensures
        number == 21,
{
    io_uring::opcode::Statx::CODE
}

/// The constant `io_uring::opcode::Read::CODE`. Claimed of it: its value, which
/// the kernel interface fixes for every architecture.
#[verifier::external_body]
fn read_code() -> (number: u8)
    ensures
        number == 22,
{
    io_uring::opcode::Read::CODE
}

/// The constant `io_uring::opcode::Write::CODE`. Claimed of it: its value, which
/// the kernel interface fixes for every architecture.
#[verifier::external_body]
fn write_code() -> (number: u8)
    ensures
        number == 23,
{
    io_uring::opcode::Write::CODE
}

/// The constant `io_uring::opcode::Fsync::CODE`. Claimed of it: its value, which
/// the kernel interface fixes for every architecture.
#[verifier::external_body]
fn fsync_code() -> (number: u8)
    ensures
        number == 3,
{
    io_uring::opcode::Fsync::CODE
}

/// The constant `io_uring::opcode::Ftruncate::CODE`. Claimed of it: its value, which
/// the kernel interface fixes for every architecture.
#[verifier::external_body]
fn ftruncate_code() -> (number: u8)
    ensures
        number == 55,
{
    io_uring::opcode::Ftruncate::CODE
}

/// The constant `io_uring::opcode::Close::CODE`. Claimed of it: its value, which
/// the kernel interface fixes for every architecture.
#[verifier::external_body]
fn close_code() -> (number: u8)
    ensures
        number == 19,
{
    io_uring::opcode::Close::CODE
}

/// The number of an operation in the io_uring interface.
fn code(operation: &NativeOperation) -> (number: u8)
    ensures
        number == operation.number(),
{
    match operation {
        NativeOperation::OpenAt => open_at_code(),
        NativeOperation::Statx => statx_code(),
        NativeOperation::Read => read_code(),
        NativeOperation::Write => write_code(),
        NativeOperation::Fsync => fsync_code(),
        NativeOperation::Ftruncate => ftruncate_code(),
        NativeOperation::Close => close_code(),
    }
}

/// The first of some operations that the answers say is not supported.
pub open spec fn first_missing(
    operations: Seq<NativeOperation>,
    supported: Seq<bool>,
) -> Option<NativeOperation>
    decreases operations.len(),
{
    if operations.len() == 0 {
        None
    } else if !supported.first() {
        Some(operations.first())
    } else {
        first_missing(operations.drop_first(), supported.drop_first())
    }
}

/// For each required operation, whether its number is among some numbers.
pub open spec fn answers(numbers: Set<u8>) -> Seq<bool> {
    required().map_values(|operation: NativeOperation| numbers.contains(operation.number()))
}

/// Why the runtime alone rules out native operations, if it does.
pub open spec fn driver_refusal(
    platform: Platform,
    driver: Option<RuntimeDriver>,
) -> Option<OpenError> {
    if platform != Platform::Linux {
        Some(OpenError::NativeRequiresLinux)
    } else {
        match driver {
            None => Some(OpenError::NoRuntime),
            Some(RuntimeDriver::Fallback) => Some(OpenError::FallbackDriver),
            Some(RuntimeDriver::IoUring) => None,
        }
    }
}

/// Accepts the io_uring driver on Linux, the only one that executes
/// filesystem operations itself.
pub fn check_native_driver(platform: Platform, driver: Option<RuntimeDriver>) -> (result: Result<
    (),
    OpenError,
>)
    ensures
        result == match driver_refusal(platform, driver) {
            Some(error) => Err::<(), OpenError>(error),
            None => Ok(()),
        },
{
    if platform != Platform::Linux {
        return Err(OpenError::NativeRequiresLinux);
    }
    match driver {
        None => Err(OpenError::NoRuntime),
        Some(RuntimeDriver::Fallback) => Err(OpenError::FallbackDriver),
        Some(RuntimeDriver::IoUring) => Ok(()),
    }
}

/// The required operations, in the order in which they are probed.
fn required_operations() -> (operations: [NativeOperation; 7])
    ensures
        operations@ == required(),
{
    let operations = [
        NativeOperation::OpenAt,
        NativeOperation::Statx,
        NativeOperation::Read,
        NativeOperation::Write,
        NativeOperation::Fsync,
        NativeOperation::Ftruncate,
        NativeOperation::Close,
    ];
    assert(operations@ =~= required());
    operations
}

/// Accepts that every required operation is supported, given for each of them
/// whether it is, and names the first one that is not.
pub fn check_native_operations(supported: &Vec<bool>) -> (result: Result<(), OpenError>)
    requires
        supported@.len() == required().len(),
    ensures
        result == match first_missing(required(), supported@) {
            Some(operation) => Err::<(), OpenError>(OpenError::MissingOperation { operation }),
            None => Ok(()),
        },
{
    let operations = required_operations();
    let mut index: usize = 0;
    assert(required().skip(0) =~= required());
    assert(supported@.skip(0) =~= supported@);
    while index < operations.len()
        invariant
            operations@ == required(),
            supported@.len() == required().len(),
            index <= operations@.len(),
            first_missing(required(), supported@) == first_missing(
                required().skip(index as int),
                supported@.skip(index as int),
            ),
        decreases operations@.len() - index,
    {
        assert(required().skip(index as int).drop_first() =~= required().skip(index + 1));
        assert(supported@.skip(index as int).drop_first() =~= supported@.skip(index + 1));
        if !supported[index] {
            return Err(OpenError::MissingOperation { operation: operations[index] });
        }
        index = index + 1;
    }
    Ok(())
}

/// Verifies that the runtime can execute the adapter's filesystem operations
/// without a blocking-pool fallback.
///
/// Requires Linux, the io_uring driver, and all probed operations, among them
/// FTRUNCATE, which came with Linux 6.9. The first missing operation is named.
pub fn check_native_filesystem_support(
    platform: Platform,
    driver: Option<RuntimeDriver>,
    probe: &io_uring::Probe,
) -> (result: Result<(), OpenError>)
    ensures
        result == match driver_refusal(platform, driver) {
            Some(error) => Err::<(), OpenError>(error),
            None => match first_missing(required(), answers(supported_numbers(*probe))) {
                Some(operation) => Err(OpenError::MissingOperation { operation }),
                None => Ok(()),
            },
        },
{
    match check_native_driver(platform, driver) {
        Ok(()) => {},
        Err(error) => {
            return Err(error);
        },
    }
    let operations = required_operations();
    let mut supported: Vec<bool> = Vec::new();
    let mut index: usize = 0;
    while index < operations.len()
        invariant
            operations@ == required(),
            index <= operations@.len(),
            supported@ == answers(supported_numbers(*probe)).take(index as int),
        decreases operations@.len() - index,
    {
        supported.push(is_supported(probe, code(&operations[index])));
        index = index + 1;
        assert(supported@ =~= answers(supported_numbers(*probe)).take(index as int));
    }
    assert(supported@ =~= answers(supported_numbers(*probe)));
    check_native_operations(&supported)
}

/// The first missing operation is the first one that is not supported, and there
/// is none exactly where all are.
pub proof fn law_first_missing_is_first(operations: Seq<NativeOperation>, supported: Seq<bool>)
    requires
        operations.len() == supported.len(),
    ensures
        first_missing(operations, supported) is None <==> forall|i: int|
            0 <= i < supported.len() ==> #[trigger] supported[i],
        first_missing(operations, supported) matches Some(missing) ==> exists|i: int|
            {
                &&& 0 <= i < supported.len()
                &&& !(#[trigger] supported[i])
                &&& operations[i] == missing
                &&& forall|j: int| 0 <= j < i ==> #[trigger] supported[j]
            },
    decreases operations.len(),
{
    if operations.len() > 0 {
        let later = operations.drop_first();
        let answers_later = supported.drop_first();
        law_first_missing_is_first(later, answers_later);
        assert forall|i: int| 0 <= i < answers_later.len() implies #[trigger] answers_later[i]
            == supported[i + 1] by {}
        if !supported.first() {
            assert(!supported[0]);
        } else {
            if first_missing(later, answers_later) is None {
                assert forall|i: int| 0 <= i < supported.len() implies #[trigger] supported[i] by {
                    if i > 0 {
                        assert(answers_later[i - 1]);
                    }
                }
            } else {
                let missing = first_missing(later, answers_later)->0;
                let k = choose|k: int|
                    {
                        &&& 0 <= k < answers_later.len()
                        &&& !(#[trigger] answers_later[k])
                        &&& later[k] == missing
                        &&& forall|j: int| 0 <= j < k ==> #[trigger] answers_later[j]
                    };
                assert(!supported[k + 1]);
                assert(operations[k + 1] == missing);
                assert forall|j: int| 0 <= j < k + 1 implies #[trigger] supported[j] by {
                    if j > 0 {
                        assert(answers_later[j - 1]);
                    }
                }
            }
        }
    }
}

/// Native operations are accepted exactly on Linux, with the io_uring driver and
/// with each of the seven operations among those that the kernel supports.
pub proof fn law_native_needs_every_operation(
    platform: Platform,
    driver: Option<RuntimeDriver>,
    numbers: Set<u8>,
)
    ensures
        driver_refusal(platform, driver) is None <==> platform is Linux && driver == Some(
            RuntimeDriver::IoUring,
        ),
        driver_refusal(platform, driver) == Some(OpenError::NativeRequiresLinux) <==> !(
        platform is Linux),
        driver_refusal(platform, driver) == Some(OpenError::NoRuntime) <==> platform is Linux
            && driver is None,
        driver_refusal(platform, driver) == Some(OpenError::FallbackDriver) <==> platform is Linux
            && driver == Some(RuntimeDriver::Fallback),
        first_missing(required(), answers(numbers)) is None <==> {
            &&& numbers.contains(NativeOperation::OpenAt.number())
            &&& numbers.contains(NativeOperation::Statx.number())
            &&& numbers.contains(NativeOperation::Read.number())
            &&& numbers.contains(NativeOperation::Write.number())
            &&& numbers.contains(NativeOperation::Fsync.number())
            &&& numbers.contains(NativeOperation::Ftruncate.number())
            &&& numbers.contains(NativeOperation::Close.number())
        },
        first_missing(required(), answers(numbers)) matches Some(missing) ==> !numbers.contains(
            missing.number(),
        ),
        required().len() == 7,
        answers(numbers).len() == 7,
{
    let operations = required();
    let supported = answers(numbers);
    law_first_missing_is_first(operations, supported);
    assert forall|i: int| 0 <= i < 7 implies #[trigger] supported[i] == numbers.contains(
        operations[i].number(),
    ) by {}
    if first_missing(operations, supported) is None {
        assert(supported[0] && supported[1] && supported[2] && supported[3] && supported[4]
            && supported[5] && supported[6]);
    }
}

/// Each operation has its own number, that of the kernel interface.
pub proof fn law_operations_have_their_numbers()
    ensures
        NativeOperation::OpenAt.number() == 18,
        NativeOperation::Statx.number() == 21,
        NativeOperation::Read.number() == 22,
        NativeOperation::Write.number() == 23,
        NativeOperation::Fsync.number() == 3,
        NativeOperation::Ftruncate.number() == 55,
        NativeOperation::Close.number() == 19,
{
}

/// The operations are probed in this order, so where several are missing the
/// earliest is named.
pub proof fn law_probing_order()
    ensures
        required()[0] is OpenAt,
        required()[1] is Statx,
        required()[2] is Read,
        required()[3] is Write,
        required()[4] is Fsync,
        required()[5] is Ftruncate,
        required()[6] is Close,
{
}

} // verus!
