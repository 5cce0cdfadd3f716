use vstd::prelude::*;

verus! {

/// The level a control line is driven to.
#[derive(Clone, Copy, Debug, PartialEq, Eq, Structural)]
pub enum Level {
    Low,
    High,
}

/// One step of the transport: drive chip-select, drive command/data-select,
/// or write bytes over the serial bus in one request.
#[derive(Clone, Debug, PartialEq, Eq)]
pub enum BusOp {
    ChipSelect(Level),
    DataSelect(Level),
    Write(Vec<u8>),
}

/// The mathematical content of a [`BusOp`].
pub enum BusOpModel {
    ChipSelect(Level),
    DataSelect(Level),
    Write(Seq<u8>),
}

impl View for BusOp {
    type V = BusOpModel;

    open spec fn view(&self) -> BusOpModel {
        match self {
            BusOp::ChipSelect(l) => BusOpModel::ChipSelect(*l),
            BusOp::DataSelect(l) => BusOpModel::DataSelect(*l),
            BusOp::Write(b) => BusOpModel::Write(b@),
        }
    }
}

/// The view of a list of operations.
pub open spec fn ops_model(ops: Seq<BusOp>) -> Seq<BusOpModel> {
    ops.map_values(|o: BusOp| o@)
}

/// Sending an opcode: chip-select low, command/data-select low, the one
/// byte, chip-select high.
pub open spec fn command_model(cmd: u8) -> Seq<BusOpModel> {
    seq![
        BusOpModel::ChipSelect(Level::Low),
        BusOpModel::DataSelect(Level::Low),
        BusOpModel::Write(seq![cmd]),
        BusOpModel::ChipSelect(Level::High),
    ]
}

/// Sending payload bytes: chip-select low, command/data-select high, the
/// whole payload in one write, chip-select high.
pub open spec fn data_model(data: Seq<u8>) -> Seq<BusOpModel> {
    seq![
        BusOpModel::ChipSelect(Level::Low),
        BusOpModel::DataSelect(Level::High),
        BusOpModel::Write(data),
        BusOpModel::ChipSelect(Level::High),
    ]
}

/// Sending an opcode and then its payload.
pub open spec fn command_and_data_model(cmd: u8, data: Seq<u8>) -> Seq<BusOpModel> {
    command_model(cmd) + data_model(data)
}

/// The panel's power-on configuration: both control lines idle high, then
/// soft reset, driver output control, data-entry mode, RAM X/Y windows,
/// border waveform, the two VCOM-related writes, and RAM X/Y counters.
pub open spec fn init_model() -> Seq<BusOpModel> {
    seq![BusOpModel::DataSelect(Level::High), BusOpModel::ChipSelect(Level::High)]
        + command_model(0x12)
        + command_and_data_model(0x01, seq![0xf9, 0x00, 0x00])
        + command_and_data_model(0x11, seq![0x01])
        + command_and_data_model(0x44, seq![0x00, 0x0f])
        + command_and_data_model(0x45, seq![0xf9, 0x00, 0x00, 0x00])
        + command_and_data_model(0x3c, seq![0x05])
        + command_and_data_model(0x21, seq![0x00, 0x80])
        + command_and_data_model(0x18, seq![0x80])
        + command_and_data_model(0x4e, seq![0x00])
        + command_and_data_model(0x4f, seq![0xf9, 0x00])
        + command_and_data_model(0x4f, seq![0xf4, 0xf4, 0xf4, 0x0f])
}

/// Sending a frame: write RAM with the framebuffer, activate display update,
/// display-update control, update-sequence option, master activation.
pub open spec fn flush_model(framebuffer: Seq<u8>) -> Seq<BusOpModel> {
    command_and_data_model(0x24, framebuffer)
        + command_model(0x26)
        + command_and_data_model(0x37, seq![0x00, 0x40, 0x20, 0x10, 0x00, 0x00, 0x00, 0x00])
        + command_and_data_model(0x22, seq![0xf4])
        + command_model(0x20)
}

/// Appends the operations that send one opcode.
pub fn push_command(ops: &mut Vec<BusOp>, cmd: u8)
    ensures
        ops_model(final(ops)@) == ops_model(old(ops)@) + command_model(cmd),
{
    let ghost before = ops@;
    ops.push(BusOp::ChipSelect(Level::Low));
    ops.push(BusOp::DataSelect(Level::Low));
    let byte = vec![cmd];
    assert(byte@ =~= seq![cmd]);
    ops.push(BusOp::Write(byte));
    ops.push(BusOp::ChipSelect(Level::High));
    assert(ops_model(ops@) =~= ops_model(before) + command_model(cmd));
}

/// Appends the operations that send a payload.
pub fn push_data(ops: &mut Vec<BusOp>, data: Vec<u8>)
    ensures
        ops_model(final(ops)@) == ops_model(old(ops)@) + data_model(data@),
{
    let ghost before = ops@;
    let ghost payload = data@;
    ops.push(BusOp::ChipSelect(Level::Low));
    ops.push(BusOp::DataSelect(Level::High));
    ops.push(BusOp::Write(data));
    ops.push(BusOp::ChipSelect(Level::High));
    assert(ops_model(ops@) =~= ops_model(before) + data_model(payload));
}

/// Appends the operations that send an opcode and then its payload.
pub fn push_command_and_data(ops: &mut Vec<BusOp>, cmd: u8, data: Vec<u8>)
    ensures
        ops_model(final(ops)@) == ops_model(old(ops)@) + command_and_data_model(cmd, data@),
{
    let ghost before = ops_model(ops@);
    push_command(ops, cmd);
    push_data(ops, data);
    assert(ops_model(ops@) =~= before + command_and_data_model(cmd, data@));
}

/// The operations of the power-on configuration, in order.
pub fn init_ops() -> (r: Vec<BusOp>)
    ensures
        ops_model(r@) == init_model(),
{
    let mut ops: Vec<BusOp> = Vec::new();
    ops.push(BusOp::DataSelect(Level::High));
    ops.push(BusOp::ChipSelect(Level::High));
    assert(ops_model(ops@) =~= seq![
        BusOpModel::DataSelect(Level::High),
        BusOpModel::ChipSelect(Level::High),
    ]);
    push_command(&mut ops, 0x12);
    push_command_and_data(&mut ops, 0x01, bytes3(0xf9, 0x00, 0x00));
    push_command_and_data(&mut ops, 0x11, bytes1(0x01));
    push_command_and_data(&mut ops, 0x44, bytes2(0x00, 0x0f));
    push_command_and_data(&mut ops, 0x45, bytes4(0xf9, 0x00, 0x00, 0x00));
    push_command_and_data(&mut ops, 0x3c, bytes1(0x05));
    push_command_and_data(&mut ops, 0x21, bytes2(0x00, 0x80));
    push_command_and_data(&mut ops, 0x18, bytes1(0x80));
    push_command_and_data(&mut ops, 0x4e, bytes1(0x00));
    push_command_and_data(&mut ops, 0x4f, bytes2(0xf9, 0x00));
    push_command_and_data(&mut ops, 0x4f, bytes4(0xf4, 0xf4, 0xf4, 0x0f));
    ops
}

/// The operations that send `framebuffer` to the panel and refresh it, in order.
pub fn flush_ops(framebuffer: &[u8]) -> (r: Vec<BusOp>)
    ensures
        ops_model(r@) == flush_model(framebuffer@),
{
    let mut ops: Vec<BusOp> = Vec::new();
    assert(ops_model(ops@) =~= Seq::<BusOpModel>::empty());
    push_command_and_data(&mut ops, 0x24, vstd::slice::slice_to_vec(framebuffer));
    assert(ops_model(ops@) =~= command_and_data_model(0x24, framebuffer@));
    push_command(&mut ops, 0x26);
    let mut update_control: Vec<u8> = bytes4(0x00, 0x40, 0x20, 0x10);
    update_control.push(0x00);
    update_control.push(0x00);
    update_control.push(0x00);
    update_control.push(0x00);
    assert(update_control@ =~= seq![0x00u8, 0x40, 0x20, 0x10, 0x00, 0x00, 0x00, 0x00]);
    push_command_and_data(&mut ops, 0x37, update_control);
    push_command_and_data(&mut ops, 0x22, bytes1(0xf4));
    push_command(&mut ops, 0x20);
    ops
}

fn bytes1(a: u8) -> (r: Vec<u8>)
    ensures
        r@ == seq![a],
{
    let r = vec![a];
    assert(r@ =~= seq![a]);
    r
}

fn bytes2(a: u8, b: u8) -> (r: Vec<u8>)
    ensures
        r@ == seq![a, b],
{
    let r = vec![a, b];
    assert(r@ =~= seq![a, b]);
    r
}

fn bytes3(a: u8, b: u8, c: u8) -> (r: Vec<u8>)
    ensures
        r@ == seq![a, b, c],
{
    let r = vec![a, b, c];
    assert(r@ =~= seq![a, b, c]);
    r
}

fn bytes4(a: u8, b: u8, c: u8, d: u8) -> (r: Vec<u8>)
    ensures
        r@ == seq![a, b, c, d],
{
    let r = vec![a, b, c, d];
    assert(r@ =~= seq![a, b, c, d]);
    r
}

} // verus!
