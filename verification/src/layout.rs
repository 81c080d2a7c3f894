//! The configuration document as it lies on disk: named sections, each an
//! object of named values or a list of such objects. This fixes every name
//! that the hypervisor looks for; turning the layout into text is left to
//! the program around the library.

use vstd::prelude::*;
use vstd::string::*;
use serde_json::Value;
use crate::text::owned;
use crate::vm::{BootSource, Drive, Logger, MachineConfig, VmDocument, Vsock};

verus! {

/// A value in the document.
#[derive(Debug, Clone, PartialEq, Eq)]
pub enum Scalar {
    Flag(bool),
    Number(u32),
    Text(String),
}

/// The mathematical content of a [`Scalar`].
pub enum ScalarView {
    Flag(bool),
    Number(u32),
    Text(Seq<char>),
}

impl DeepView for Scalar {
    type V = ScalarView;

    open spec fn deep_view(&self) -> ScalarView {
        match self {
            Scalar::Flag(b) => ScalarView::Flag(*b),
            Scalar::Number(n) => ScalarView::Number(*n),
            Scalar::Text(s) => ScalarView::Text(s@),
        }
    }
}

/// An object of named values, in the order in which they are written.
pub type Block = Vec<(String, Scalar)>;

/// The mathematical content of a [`Block`].
pub type BlockView = Seq<(Seq<char>, ScalarView)>;

/// A section of the document.
#[derive(Debug, Clone, PartialEq, Eq)]
pub enum Section {
    /// One object.
    Single(Block),
    /// A list of objects.
    List(Vec<Block>),
}

/// The mathematical content of a [`Section`].
pub enum SectionView {
    Single(BlockView),
    List(Seq<BlockView>),
}

impl DeepView for Section {
    type V = SectionView;

    open spec fn deep_view(&self) -> SectionView {
        match self {
            Section::Single(block) => SectionView::Single(block.deep_view()),
            Section::List(blocks) => SectionView::List(blocks.deep_view()),
        }
    }
}

/// The whole document: its sections by name, in the order in which they are
/// written.
pub type Layout = Vec<(String, Section)>;

/// The mathematical content of a [`Layout`].
pub type LayoutView = Seq<(Seq<char>, SectionView)>;

/// The object that describes one block device.
pub open spec fn drive_block(drive: Drive) -> BlockView {
    seq![
        ("drive_id"@, ScalarView::Text(drive.drive_id@)),
        ("path_on_host"@, ScalarView::Text(drive.path_on_host@)),
        ("is_root_device"@, ScalarView::Flag(drive.is_root_device)),
        ("is_read_only"@, ScalarView::Flag(drive.is_read_only)),
    ]
}

/// The objects that describe the block devices, in their order.
pub open spec fn drive_blocks(drives: Seq<Drive>) -> Seq<BlockView> {
    Seq::new(drives.len(), |i: int| drive_block(drives[i]))
}

/// The object that names kernel and boot arguments.
pub open spec fn boot_block(boot: BootSource) -> BlockView {
    seq![
        ("kernel_image_path"@, ScalarView::Text(boot.kernel_image_path@)),
        ("boot_args"@, ScalarView::Text(boot.boot_args@)),
    ]
}

/// The object that gives the machine's resources.
pub open spec fn machine_block(machine: MachineConfig) -> BlockView {
    seq![
        ("vcpu_count"@, ScalarView::Number(machine.vcpu_count)),
        ("mem_size_mib"@, ScalarView::Number(machine.mem_size_mib)),
        ("smt"@, ScalarView::Flag(machine.smt)),
    ]
}

/// The object that describes the virtual socket device.
pub open spec fn vsock_block(vsock: Vsock) -> BlockView {
    seq![
        ("guest_cid"@, ScalarView::Number(vsock.guest_cid)),
        ("uds_path"@, ScalarView::Text(vsock.uds_path@)),
        ("vsock_id"@, ScalarView::Text(vsock.vsock_id@)),
    ]
}

/// The object that configures the hypervisor's log.
pub open spec fn logger_block(logger: Logger) -> BlockView {
    seq![
        ("log_path"@, ScalarView::Text(logger.log_path@)),
        ("level"@, ScalarView::Text(logger.level@)),
        ("show_level"@, ScalarView::Flag(logger.show_level)),
        ("show_log_origin"@, ScalarView::Flag(logger.show_log_origin)),
    ]
}

/// The sections that every document has.
pub open spec fn fixed_sections(doc: VmDocument) -> LayoutView {
    seq![
        ("boot-source"@, SectionView::Single(boot_block(doc.boot_source))),
        ("drives"@, SectionView::List(drive_blocks(doc.drives@))),
        ("machine-config"@, SectionView::Single(machine_block(doc.machine_config))),
        ("vsock"@, SectionView::Single(vsock_block(doc.vsock))),
    ]
}

/// The layout of a document: the fixed sections and, where the document has
/// a logger, the logger's section after them.
pub open spec fn layout_of(doc: VmDocument) -> LayoutView {
    match doc.logger {
        Some(logger) => fixed_sections(doc).push(
            ("logger"@, SectionView::Single(logger_block(logger))),
        ),
        None => fixed_sections(doc),
    }
}

/// The JSON text that `serde_json` writes for a document with the given
/// sections.
pub uninterp spec fn json_text_of(layout: Seq<(Seq<char>, SectionView)>) -> Seq<char>;

/// `serde_json::Value::to_string`, on the JSON object that has the layout's
/// sections as members: each section an object of its values, or an array of
/// such objects. The result is the named text of the layout. Nothing more is
/// claimed of it.
#[verifier::external_body]
fn json_text(layout: &Layout) -> (r: String)
    ensures
        r@ == json_text_of(layout.deep_view()),
{
    let object = |b: &Block| -> Value {
        b.iter().map(|(k, v)| (k.clone(), match v {
            Scalar::Flag(flag) => Value::from(*flag),
            Scalar::Number(number) => Value::from(*number),
            Scalar::Text(text) => Value::from(text.clone()),
        })).collect()
    };
    let document: Value = layout.iter().map(|(k, s)| (k.clone(), match s {
        Section::Single(b) => object(b),
        Section::List(l) => l.iter().map(&object).collect(),
    })).collect();
    document.to_string()
}

/// Appends a named value to an object.
fn put(block: &mut Block, key: &str, value: Scalar)
    ensures
        final(block).deep_view() == old(block).deep_view().push((key@, value.deep_view())),
{
    let ghost before = block.deep_view();
    let ghost member = (key@, value.deep_view());
    block.push((owned(key), value));
    assert(block.deep_view() =~= before.push(member));
}

/// Appends a named section to a layout.
fn put_section(layout: &mut Layout, key: &str, section: Section)
    ensures
        final(layout).deep_view() == old(layout).deep_view().push((key@, section.deep_view())),
{
    let ghost before = layout.deep_view();
    let ghost member = (key@, section.deep_view());
    layout.push((owned(key), section));
    assert(layout.deep_view() =~= before.push(member));
}

/// The object that describes one block device.
fn drive_object(drive: &Drive) -> (r: Block)
    ensures
        r.deep_view() == drive_block(*drive),
{
    let mut block: Block = Vec::new();
    assert(block.deep_view() =~= Seq::empty());
    put(&mut block, "drive_id", Scalar::Text(drive.drive_id.clone()));
    put(&mut block, "path_on_host", Scalar::Text(drive.path_on_host.clone()));
    put(&mut block, "is_root_device", Scalar::Flag(drive.is_root_device));
    put(&mut block, "is_read_only", Scalar::Flag(drive.is_read_only));
    assert(block.deep_view() =~= drive_block(*drive));
    block
}

/// The object that names kernel and boot arguments.
fn boot_object(boot: &BootSource) -> (r: Block)
    ensures
        r.deep_view() == boot_block(*boot),
{
    let mut block: Block = Vec::new();
    assert(block.deep_view() =~= Seq::empty());
    put(&mut block, "kernel_image_path", Scalar::Text(boot.kernel_image_path.clone()));
    put(&mut block, "boot_args", Scalar::Text(boot.boot_args.clone()));
    assert(block.deep_view() =~= boot_block(*boot));
    block
}

/// The object that gives the machine's resources.
fn machine_object(machine: &MachineConfig) -> (r: Block)
    ensures
        r.deep_view() == machine_block(*machine),
{
    let mut block: Block = Vec::new();
    assert(block.deep_view() =~= Seq::empty());
    put(&mut block, "vcpu_count", Scalar::Number(machine.vcpu_count));
    put(&mut block, "mem_size_mib", Scalar::Number(machine.mem_size_mib));
    put(&mut block, "smt", Scalar::Flag(machine.smt));
    assert(block.deep_view() =~= machine_block(*machine));
    block
}

/// The object that describes the virtual socket device.
fn vsock_object(vsock: &Vsock) -> (r: Block)
    ensures
        r.deep_view() == vsock_block(*vsock),
{
    let mut block: Block = Vec::new();
    assert(block.deep_view() =~= Seq::empty());
    put(&mut block, "guest_cid", Scalar::Number(vsock.guest_cid));
    put(&mut block, "uds_path", Scalar::Text(vsock.uds_path.clone()));
    put(&mut block, "vsock_id", Scalar::Text(vsock.vsock_id.clone()));
    assert(block.deep_view() =~= vsock_block(*vsock));
    block
}

/// The object that configures the hypervisor's log.
fn logger_object(logger: &Logger) -> (r: Block)
    ensures
        r.deep_view() == logger_block(*logger),
{
    let mut block: Block = Vec::new();
    assert(block.deep_view() =~= Seq::empty());
    put(&mut block, "log_path", Scalar::Text(logger.log_path.clone()));
    put(&mut block, "level", Scalar::Text(logger.level.clone()));
    put(&mut block, "show_level", Scalar::Flag(logger.show_level));
    put(&mut block, "show_log_origin", Scalar::Flag(logger.show_log_origin));
    assert(block.deep_view() =~= logger_block(*logger));
    block
}

/// The objects that describe the block devices, in their order.
fn drive_objects(drives: &Vec<Drive>) -> (r: Vec<Block>)
    ensures
        r.deep_view() == drive_blocks(drives@),
{
    let mut blocks: Vec<Block> = Vec::new();
    let mut i: usize = 0;
    assert(blocks.deep_view() =~= drive_blocks(drives@.subrange(0, 0)));
    while i < drives.len()
        invariant
            i <= drives@.len(),
            blocks.deep_view() == drive_blocks(drives@.subrange(0, i as int)),
        decreases drives@.len() - i,
    {
        let ghost before = blocks.deep_view();
        let block = drive_object(&drives[i]);
        blocks.push(block);
        assert(blocks.deep_view() =~= before.push(drive_block(drives@[i as int])));
        i = i + 1;
        assert(blocks.deep_view() =~= drive_blocks(drives@.subrange(0, i as int)));
    }
    assert(drives@.subrange(0, i as int) =~= drives@);
    blocks
}

impl VmDocument {
    /// The document as named sections and named values, with every name as
    /// the hypervisor expects it.
    pub fn layout(&self) -> (r: Layout)
        ensures
            r.deep_view() == layout_of(*self),
    {
        let mut layout: Layout = Vec::new();
        assert(layout.deep_view() =~= Seq::empty());
        put_section(&mut layout, "boot-source", Section::Single(boot_object(&self.boot_source)));
        put_section(&mut layout, "drives", Section::List(drive_objects(&self.drives)));
        put_section(
            &mut layout,
            "machine-config",
            Section::Single(machine_object(&self.machine_config)),
        );
        put_section(&mut layout, "vsock", Section::Single(vsock_object(&self.vsock)));
        assert(layout.deep_view() =~= fixed_sections(*self));
        match &self.logger {
            Some(logger) => {
                put_section(&mut layout, "logger", Section::Single(logger_object(logger)));
            },
            None => {},
        }
        layout
    }

    /// The document as JSON text, ready to be written to its file.
    pub fn to_json(&self) -> (r: String)
        ensures
            r@ == json_text_of(layout_of(*self)),
    {
        let layout = self.layout();
        json_text(&layout)
    }
}

} // verus!
