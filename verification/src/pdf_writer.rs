//! The report builder's layout logic: table rows with their spacer
//! conventions, cyclic header assignment, the block structure of each report
//! document, and the font-configuration rule that decides whether a report
//! comes out at all. Rendering the resulting plan to a PDF file is the
//! caller's affair; everything here is plain values.

use vstd::prelude::*;
use vstd::seq_lib::group_seq_properties;
use vstd::string::StringExecFns;

verus! {

broadcast use Seq::lemma_push_map_commute, Seq::lemma_map_take_succ;

/// Paragraph alignment inside a rendered document.
#[derive(Clone, Copy, Debug, PartialEq, Eq, Structural)]
pub enum Align {
    Left,
    Center,
}

/// One table row: a one- or two-column data row, or a full-width spacer.
#[derive(Debug)]
pub enum TableRow {
    Single(String),
    Pair(String, String),
    Spacer,
}

/// The character-level picture of one table row.
#[verifier::ext_equal]
pub enum RowView {
    Single(Seq<char>),
    Pair(Seq<char>, Seq<char>),
    Spacer,
}

impl View for TableRow {
    type V = RowView;

    open spec fn view(&self) -> RowView {
        match self {
            TableRow::Single(v) => RowView::Single(v@),
            TableRow::Pair(h, v) => RowView::Pair(h@, v@),
            TableRow::Spacer => RowView::Spacer,
        }
    }
}

/// The character-level picture of a row sequence.
pub open spec fn rows_views(rows: Seq<TableRow>) -> Seq<RowView> {
    rows.map_values(|r: TableRow| r@)
}

/// Whether a row can stand in a table of `columns` columns.
pub open spec fn row_fits(r: TableRow, columns: u8) -> bool {
    match r {
        TableRow::Single(_) => columns == 1,
        TableRow::Pair(_, _) => columns == 2,
        TableRow::Spacer => true,
    }
}

/// A table: its column count and its rows in order.
#[derive(Debug)]
pub struct TableModel {
    pub columns: u8,
    pub rows: Vec<TableRow>,
}

impl TableModel {
    /// One or two columns, and every row shaped for that count.
    pub open spec fn wf(self) -> bool {
        &&& (self.columns == 1 || self.columns == 2)
        &&& forall|i: int| 0 <= i < self.rows@.len() ==> row_fits(#[trigger] self.rows@[i], self.columns)
    }
}

/// The head of a two-column table: one row of the two header labels, then a
/// spacer.
pub fn create_table(key: &str, value: &str) -> (t: TableModel)
    ensures
        t.wf(),
        t.columns == 2,
        rows_views(t.rows@) == seq![RowView::Pair(key@, value@), RowView::Spacer],
{
    let mut rows: Vec<TableRow> = Vec::new();
    rows.push(TableRow::Pair(String::from_str(key), String::from_str(value)));
    rows.push(TableRow::Spacer);
    let t = TableModel { columns: 2, rows };
    proof {
        assert(rows_views(t.rows@) =~= seq![RowView::Pair(key@, value@), RowView::Spacer]);
    }
    t
}

/// The head of a one-column table: the header label row, then a spacer.
pub fn create_table_with_one_column(header: &str) -> (t: TableModel)
    ensures
        t.wf(),
        t.columns == 1,
        rows_views(t.rows@) == seq![RowView::Single(header@), RowView::Spacer],
{
    let mut rows: Vec<TableRow> = Vec::new();
    rows.push(TableRow::Single(String::from_str(header)));
    rows.push(TableRow::Spacer);
    let t = TableModel { columns: 1, rows };
    proof {
        assert(rows_views(t.rows@) =~= seq![RowView::Single(header@), RowView::Spacer]);
    }
    t
}

/// Appends one single-column data row per email, in input order, with no
/// spacers between them.
pub fn push_table_data_emails(emails: Vec<String>, table: &mut TableModel)
    requires
        old(table).wf(),
        old(table).columns == 1,
    ensures
        final(table).wf(),
        final(table).columns == 1,
        final(table).rows@ == old(table).rows@ + emails@.map_values(
            |e: String| TableRow::Single(e),
        ),
{
    let ghost orig = table.rows@;
    let ghost all = emails@;
    let mut rest = emails;
    let total: usize = rest.len();
    let mut count: usize = 0;
    while rest.len() > 0
        invariant
            table.wf(),
            table.columns == 1,
            total == all.len(),
            count + rest@.len() == all.len(),
            rest@ == all.skip(count as int),
            table.rows@ == orig + all.take(count as int).map_values(
                |e: String| TableRow::Single(e),
            ),
        decreases rest@.len(),
    {
        let ghost done = count as int;
        let ghost before = rest@;
        let email = rest.remove(0);
        proof {
            assert(rest@ =~= before.skip(1));
            assert(rest@ =~= all.skip(done + 1));
            assert(email == all[done]);
        }
        table.rows.push(TableRow::Single(email));
        count = count + 1;
        proof {
            assert(table.rows@ =~= orig + all.take(done + 1).map_values(
                |e: String| TableRow::Single(e),
            ));
        }
    }
    proof {
        assert(all.take(all.len() as int) =~= all);
        assert(table.rows@ =~= orig + all.map_values(|e: String| TableRow::Single(e)));
    }
}

/// The rows a cyclic-header table gains for `records`: the `k`-th record is
/// paired with header `k % headers.len()`, and a spacer follows every
/// `interval`-th data row.
pub open spec fn cyclic_rows(headers: Seq<String>, records: Seq<String>, interval: nat) -> Seq<
    TableRow,
>
    decreases records.len(),
{
    if records.len() == 0 {
        Seq::empty()
    } else {
        let k = records.len() - 1;
        cyclic_rows(headers, records.drop_last(), interval) + seq![
            TableRow::Pair(headers[k % (headers.len() as int)], records[k]),
        ] + (if (k + 1) % (interval as int) == 0 {
            seq![TableRow::Spacer]
        } else {
            Seq::empty()
        })
    }
}

/// Appends the cyclic-header rows for `records` to a two-column table.
pub fn push_cyclic_rows(
    headers: &Vec<String>,
    records: Vec<String>,
    table: &mut TableModel,
    interval: usize,
)
    requires
        old(table).wf(),
        old(table).columns == 2,
        headers@.len() > 0,
        interval > 0,
    ensures
        final(table).wf(),
        final(table).columns == 2,
        final(table).rows@ == old(table).rows@ + cyclic_rows(headers@, records@, interval as nat),
{
    let ghost orig = table.rows@;
    let ghost recs = records@;
    let mut rest = records;
    let total: usize = rest.len();
    let mut count: usize = 0;
    while rest.len() > 0
        invariant
            table.wf(),
            table.columns == 2,
            headers@.len() > 0,
            interval > 0,
            total == recs.len(),
            count + rest@.len() == recs.len(),
            rest@ == recs.skip(count as int),
            table.rows@ == orig + cyclic_rows(headers@, recs.take(count as int), interval as nat),
        decreases rest@.len(),
    {
        let ghost done = count as int;
        let ghost before = rest@;
        let record = rest.remove(0);
        proof {
            assert(rest@ =~= before.skip(1));
            assert(rest@ =~= recs.skip(done + 1));
            assert(record == recs[done]);
        }
        let hidx: usize = count % headers.len();
        let header = headers[hidx].clone();
        table.rows.push(TableRow::Pair(header, record));
        count = count + 1;
        if count % interval == 0 {
            table.rows.push(TableRow::Spacer);
        }
        proof {
            assert(recs.take(done + 1).drop_last() =~= recs.take(done));
            assert(recs.take(done + 1).last() == recs[done]);
            assert(table.rows@ =~= orig + cyclic_rows(
                headers@,
                recs.take(done + 1),
                interval as nat,
            ));
        }
    }
    proof {
        assert(recs.take(recs.len() as int) =~= recs);
    }
}

/// The data rows of a row sequence: everything but the spacers.
pub open spec fn data_rows(rows: Seq<TableRow>) -> Seq<TableRow> {
    rows.filter(|r: TableRow| !(r is Spacer))
}

/// The shape of a cyclic-header table: exactly one data row per record, in
/// input order, pairing record `k` with header `k % headers.len()`; and one
/// spacer after every `interval`-th data row, `records.len() / interval` of
/// them in all, so the row count is their sum.
pub proof fn lemma_cyclic_rows_shape(headers: Seq<String>, records: Seq<String>, interval: nat)
    requires
        headers.len() > 0,
        interval > 0,
    ensures
        data_rows(cyclic_rows(headers, records, interval)) == Seq::new(
            records.len(),
            |k: int| TableRow::Pair(headers[k % (headers.len() as int)], records[k]),
        ),
        cyclic_rows(headers, records, interval).len() == records.len() + records.len() / interval,
    decreases records.len(),
{
    broadcast use group_seq_properties;

    reveal(Seq::filter);
    let pred = |r: TableRow| !(r is Spacer);
    if records.len() == 0 {
        assert(data_rows(cyclic_rows(headers, records, interval)) =~= Seq::new(
            0,
            |k: int| TableRow::Pair(headers[k % (headers.len() as int)], records[k]),
        ));
    } else {
        let prev_records = records.drop_last();
        lemma_cyclic_rows_shape(headers, prev_records, interval);
        let n = records.len() as int;
        let i = interval as int;
        let k = n - 1;
        let pair = TableRow::Pair(headers[k % (headers.len() as int)], records[k]);
        let prev = cyclic_rows(headers, prev_records, interval);
        let tail: Seq<TableRow> = if n % i == 0 {
            seq![TableRow::Spacer]
        } else {
            Seq::empty()
        };
        assert(cyclic_rows(headers, records, interval) == prev + seq![pair] + tail);
        Seq::filter_distributes_over_add(prev, seq![pair], pred);
        Seq::filter_distributes_over_add(prev + seq![pair], tail, pred);
        assert(seq![pair].filter(pred) =~= seq![pair]) by {
            assert(seq![pair].drop_last() =~= Seq::<TableRow>::empty());
        }
        assert(tail.filter(pred) =~= Seq::<TableRow>::empty()) by {
            if n % i == 0 {
                assert(tail.drop_last() =~= Seq::<TableRow>::empty());
            }
        }
        assert(data_rows(cyclic_rows(headers, records, interval)) =~= Seq::new(
            records.len(),
            |j: int| TableRow::Pair(headers[j % (headers.len() as int)], records[j]),
        ));
        assert(n / i == (n - 1) / i + (if n % i == 0 {
            1int
        } else {
            0int
        })) by (nonlinear_arith)
            requires
                n >= 1,
                i > 0,
        ;
    }
}

/// A spacer follows every fourth data row in the text-detection and
/// identity reports, and every ninth in the face report.
pub const TEXT_REPORT_SPACER_INTERVAL: usize = 4;

pub const FACE_REPORT_SPACER_INTERVAL: usize = 9;

pub const IDENTITY_REPORT_SPACER_INTERVAL: usize = 4;

/// Appends the text-detection rows: headers cycled, a spacer every fourth
/// data row.
pub fn push_table_data_text_results(
    headers: &Vec<String>,
    records: Vec<String>,
    table: &mut TableModel,
)
    requires
        old(table).wf(),
        old(table).columns == 2,
        headers@.len() > 0,
    ensures
        final(table).wf(),
        final(table).columns == 2,
        final(table).rows@ == old(table).rows@ + cyclic_rows(
            headers@,
            records@,
            TEXT_REPORT_SPACER_INTERVAL as nat,
        ),
{
    push_cyclic_rows(headers, records, table, TEXT_REPORT_SPACER_INTERVAL);
}

/// Appends the face-detection rows: headers cycled, a spacer every ninth
/// data row.
pub fn push_table_data_face_results(
    headers: &Vec<String>,
    records: Vec<String>,
    table: &mut TableModel,
)
    requires
        old(table).wf(),
        old(table).columns == 2,
        headers@.len() > 0,
    ensures
        final(table).wf(),
        final(table).columns == 2,
        final(table).rows@ == old(table).rows@ + cyclic_rows(
            headers@,
            records@,
            FACE_REPORT_SPACER_INTERVAL as nat,
        ),
{
    push_cyclic_rows(headers, records, table, FACE_REPORT_SPACER_INTERVAL);
}

/// Appends the identity-listing rows: headers cycled, a spacer every fourth
/// data row.
pub fn push_table_data_emails_identies(
    headers: &Vec<String>,
    identities: Vec<String>,
    table: &mut TableModel,
)
    requires
        old(table).wf(),
        old(table).columns == 2,
        headers@.len() > 0,
    ensures
        final(table).wf(),
        final(table).columns == 2,
        final(table).rows@ == old(table).rows@ + cyclic_rows(
            headers@,
            identities@,
            IDENTITY_REPORT_SPACER_INTERVAL as nat,
        ),
{
    push_cyclic_rows(headers, identities, table, IDENTITY_REPORT_SPACER_INTERVAL);
}

/// One document block, in order of appearance.
#[derive(Debug)]
pub enum Block {
    Paragraph(Align, String),
    Break(u32),
    Table(TableModel),
    Image(String),
}

/// The character-level picture of one block.
#[verifier::ext_equal]
pub enum BlockView {
    Paragraph(Align, Seq<char>),
    Break(u32),
    Table(u8, Seq<RowView>),
    Image(Seq<char>),
}

impl View for Block {
    type V = BlockView;

    open spec fn view(&self) -> BlockView {
        match self {
            Block::Paragraph(a, t) => BlockView::Paragraph(*a, t@),
            Block::Break(n) => BlockView::Break(*n),
            Block::Table(t) => BlockView::Table(t.columns, rows_views(t.rows@)),
            Block::Image(p) => BlockView::Image(p@),
        }
    }
}

/// The character-level picture of a block sequence.
pub open spec fn blocks_views(blocks: Seq<Block>) -> Seq<BlockView> {
    blocks.map_values(|b: Block| b@)
}

/// A document: its metadata title and its blocks in order.
#[derive(Debug)]
pub struct DocumentModel {
    pub title: String,
    pub blocks: Vec<Block>,
}

/// Sets the document title and pushes the centred page-title line, the
/// first block of every report.
pub fn document_configuration(document: &mut DocumentModel, title: &str, page_title: &str)
    ensures
        final(document).title@ == title@,
        blocks_views(final(document).blocks@) == blocks_views(old(document).blocks@) + seq![
            BlockView::Paragraph(Align::Center, page_title@),
        ],
{
    document.title = String::from_str(title);
    document.blocks.push(Block::Paragraph(Align::Center, String::from_str(page_title)));
    proof {
        assert(blocks_views(document.blocks@) =~~= blocks_views(old(document).blocks@) + seq![
            BlockView::Paragraph(Align::Center, page_title@),
        ]);
    }
}

/// The font configuration the environment supplies; either part may be
/// absent.
#[derive(Debug)]
pub struct FontConfig {
    pub font_path: Option<String>,
    pub font_name: Option<String>,
}

/// Why a report run ended with a diagnostic instead of a document.
#[derive(Clone, Copy, Debug, PartialEq, Eq, Structural)]
pub enum ReportConfigError {
    FontNameUnset,
    FontConfigUnset,
}

impl ReportConfigError {
    /// The diagnostic the operator sees instead of a document.
    pub fn message(&self) -> (m: String)
        ensures
            *self is FontNameUnset
                ==> m@ == "The PDF generation process cannot proceed because the essential environment variable,'FONT_NAME', has not been set. Instead, a text document is generated"@,
            *self is FontConfigUnset
                ==> m@ == "The PDF generation process cannot proceed because the essential environment variable, 'FONT_PATH', and 'FONT_NAME' has not been set. Instead, a text document is generated"@,
    {
        match self {
            ReportConfigError::FontNameUnset => String::from_str(
                "The PDF generation process cannot proceed because the essential environment variable,'FONT_NAME', has not been set. Instead, a text document is generated",
            ),
            ReportConfigError::FontConfigUnset => String::from_str(
                "The PDF generation process cannot proceed because the essential environment variable, 'FONT_PATH', and 'FONT_NAME' has not been set. Instead, a text document is generated",
            ),
        }
    }
}

/// Whether the configuration names both the font path and the font family.
pub open spec fn font_config_complete(cfg: FontConfig) -> bool {
    cfg.font_path is Some && cfg.font_name is Some
}

/// Every report runs through this decision first: with both font variables
/// set it yields the path and family to load; with either absent the report
/// degrades to a diagnostic instead of a document.
pub fn resolve_font(cfg: &FontConfig) -> (r: Result<(String, String), ReportConfigError>)
    ensures
        r is Ok <==> font_config_complete(*cfg),
        r matches Ok(p) ==> cfg.font_path == Some(p.0) && cfg.font_name == Some(p.1),
        r matches Err(e) ==> (e == ReportConfigError::FontConfigUnset <==> cfg.font_path is None),
        r matches Err(e) ==> (e == ReportConfigError::FontNameUnset <==> (cfg.font_path is Some
            && cfg.font_name is None)),
{
    match &cfg.font_path {
        Some(p) => match &cfg.font_name {
            Some(n) => Ok((p.clone(), n.clone())),
            None => Err(ReportConfigError::FontNameUnset),
        },
        None => Err(ReportConfigError::FontConfigUnset),
    }
}

/// A report ready to render: the fonts to load, the output file name, and
/// the document.
#[derive(Debug)]
pub struct RenderPlan {
    pub font_path: String,
    pub font_name: String,
    pub file_name: String,
    pub document: DocumentModel,
}

/// The rows of the email table: its header and spacer, then one row per
/// email.
pub open spec fn email_table_rows(emails: Seq<String>) -> Seq<RowView> {
    seq![RowView::Single("Emails"@), RowView::Spacer] + emails.map_values(
        |e: String| RowView::Single(e@),
    )
}

/// The block structure of the email report.
pub open spec fn email_report_blocks(
    emails: Seq<String>,
    contact_list_name: Seq<char>,
    region_name: Seq<char>,
) -> Seq<BlockView> {
    seq![
        BlockView::Paragraph(Align::Center, "Emails in the Specified List"@),
        BlockView::Break(1),
        BlockView::Paragraph(Align::Left, "Contact List Name: "@ + contact_list_name),
        BlockView::Paragraph(Align::Left, "Region Name: "@ + region_name),
        BlockView::Break(1),
        BlockView::Table(1, email_table_rows(emails)),
    ]
}

/// Lays out the email report, or degrades to a configuration error with no
/// document when the font configuration is incomplete.
pub fn create_email_pdf(
    emails: Vec<String>,
    contact_list_name: &str,
    region_name: &str,
    fonts: &FontConfig,
) -> (r: Result<RenderPlan, ReportConfigError>)
    ensures
        r is Ok <==> font_config_complete(*fonts),
        r matches Ok(plan) ==> ({
            &&& fonts.font_path == Some(plan.font_path)
            &&& fonts.font_name == Some(plan.font_name)
            &&& plan.file_name@ == "Emails.pdf"@
            &&& plan.document.title@ == "Email List"@
            &&& blocks_views(plan.document.blocks@) == email_report_blocks(
                emails@,
                contact_list_name@,
                region_name@,
            )
        }),
        r matches Err(e) ==> (e == ReportConfigError::FontConfigUnset <==> fonts.font_path
            is None),
        r matches Err(e) ==> (e == ReportConfigError::FontNameUnset <==> (fonts.font_path is Some
            && fonts.font_name is None)),
{
    let mut table = create_table_with_one_column("Emails");
    push_table_data_emails(emails, &mut table);
    let ghost table_rows = table.rows@;
    match resolve_font(fonts) {
        Ok((font_path, font_name)) => {
            let mut document = DocumentModel { title: String::new(), blocks: Vec::new() };
            document_configuration(&mut document, "Email List", "Emails in the Specified List");
            document.blocks.push(Block::Break(1));
            let mut contact_line = String::from_str("Contact List Name: ");
            contact_line.append(contact_list_name);
            document.blocks.push(Block::Paragraph(Align::Left, contact_line));
            let mut region_line = String::from_str("Region Name: ");
            region_line.append(region_name);
            document.blocks.push(Block::Paragraph(Align::Left, region_line));
            document.blocks.push(Block::Break(1));
            document.blocks.push(Block::Table(table));
            proof {
                assert(rows_views(table_rows) =~~= email_table_rows(emails@));
                assert(blocks_views(document.blocks@) =~~= email_report_blocks(
                    emails@,
                    contact_list_name@,
                    region_name@,
                ));
            }
            Ok(
                RenderPlan {
                    font_path,
                    font_name,
                    file_name: String::from_str("Emails.pdf"),
                    document,
                },
            )
        },
        Err(e) => Err(e),
    }
}

/// The rows of a cyclic-header table: the two header labels and a spacer,
/// then the cycled data rows.
pub open spec fn cyclic_table_rows(
    head_key: Seq<char>,
    head_value: Seq<char>,
    headers: Seq<String>,
    records: Seq<String>,
    interval: nat,
) -> Seq<RowView> {
    seq![RowView::Pair(head_key, head_value), RowView::Spacer] + rows_views(
        cyclic_rows(headers, records, interval),
    )
}

/// The block structure of the text-detection report.
pub open spec fn text_result_blocks(
    headers: Seq<String>,
    records: Seq<String>,
    job_id: Seq<char>,
    bucket_name: Seq<char>,
    video_name: Seq<char>,
) -> Seq<BlockView> {
    seq![
        BlockView::Paragraph(Align::Center, "Result of Start Text Detection Task"@),
        BlockView::Break(1),
        BlockView::Paragraph(Align::Left, "Job ID:  "@ + job_id),
        BlockView::Paragraph(Align::Left, "Bucket Name:  "@ + bucket_name),
        BlockView::Paragraph(Align::Left, "Key Text Video Name:  "@ + video_name),
        BlockView::Break(1),
        BlockView::Table(
            2,
            cyclic_table_rows(
                "Text Information"@,
                "Predictions"@,
                headers,
                records,
                TEXT_REPORT_SPACER_INTERVAL as nat,
            ),
        ),
    ]
}

/// Lays out the text-detection report, or degrades to a configuration
/// error with no document.
pub fn create_text_result_pdf(
    headers: &Vec<String>,
    records: Vec<String>,
    job_id: String,
    names: (String, String),
    fonts: &FontConfig,
) -> (r: Result<RenderPlan, ReportConfigError>)
    requires
        headers@.len() > 0,
    ensures
        r is Ok <==> font_config_complete(*fonts),
        r matches Ok(plan) ==> ({
            &&& fonts.font_path == Some(plan.font_path)
            &&& fonts.font_name == Some(plan.font_name)
            &&& plan.file_name@ == "Text_Detection_Results.pdf"@
            &&& plan.document.title@ == "Text Detection Results"@
            &&& blocks_views(plan.document.blocks@) == text_result_blocks(
                headers@,
                records@,
                job_id@,
                names.0@,
                names.1@,
            )
        }),
        r matches Err(e) ==> (e == ReportConfigError::FontConfigUnset <==> fonts.font_path
            is None),
        r matches Err(e) ==> (e == ReportConfigError::FontNameUnset <==> (fonts.font_path is Some
            && fonts.font_name is None)),
{
    let (bucket_name, video_name) = names;
    let mut table = create_table("Text Information", "Predictions");
    push_table_data_text_results(headers, records, &mut table);
    let ghost table_rows = table.rows@;
    match resolve_font(fonts) {
        Ok((font_path, font_name)) => {
            let mut document = DocumentModel { title: String::new(), blocks: Vec::new() };
            document_configuration(
                &mut document,
                "Text Detection Results",
                "Result of Start Text Detection Task",
            );
            document.blocks.push(Block::Break(1));
            let mut job_line = String::from_str("Job ID:  ");
            job_line.append(job_id.as_str());
            document.blocks.push(Block::Paragraph(Align::Left, job_line));
            let mut bucket_line = String::from_str("Bucket Name:  ");
            bucket_line.append(bucket_name.as_str());
            document.blocks.push(Block::Paragraph(Align::Left, bucket_line));
            let mut video_line = String::from_str("Key Text Video Name:  ");
            video_line.append(video_name.as_str());
            document.blocks.push(Block::Paragraph(Align::Left, video_line));
            document.blocks.push(Block::Break(1));
            document.blocks.push(Block::Table(table));
            proof {
                assert(rows_views(table_rows) =~~= cyclic_table_rows(
                    "Text Information"@,
                    "Predictions"@,
                    headers@,
                    records@,
                    TEXT_REPORT_SPACER_INTERVAL as nat,
                ));
                assert(blocks_views(document.blocks@) =~~= text_result_blocks(
                    headers@,
                    records@,
                    job_id@,
                    names.0@,
                    names.1@,
                ));
            }
            Ok(
                RenderPlan {
                    font_path,
                    font_name,
                    file_name: String::from_str("Text_Detection_Results.pdf"),
                    document,
                },
            )
        },
        Err(e) => Err(e),
    }
}

/// The block structure of the face-detection report.
pub open spec fn face_result_blocks(
    headers: Seq<String>,
    records: Seq<String>,
    job_id: Seq<char>,
    bucket_name: Seq<char>,
    video_name: Seq<char>,
) -> Seq<BlockView> {
    seq![
        BlockView::Paragraph(Align::Center, "Result of Start Face Detection Task"@),
        BlockView::Break(1),
        BlockView::Paragraph(Align::Left, "Job ID:  "@ + job_id),
        BlockView::Paragraph(Align::Left, "Bucket Name:  "@ + bucket_name),
        BlockView::Paragraph(Align::Left, "Key Face Video Name:  "@ + video_name),
        BlockView::Break(1),
        BlockView::Table(
            2,
            cyclic_table_rows(
                "Face Information"@,
                "Predictions"@,
                headers,
                records,
                FACE_REPORT_SPACER_INTERVAL as nat,
            ),
        ),
    ]
}

/// Lays out the face-detection report, or degrades to a configuration
/// error with no document.
pub fn create_face_result_pdf(
    headers: &Vec<String>,
    records: Vec<String>,
    job_id: &str,
    names: (String, String),
    fonts: &FontConfig,
) -> (r: Result<RenderPlan, ReportConfigError>)
    requires
        headers@.len() > 0,
    ensures
        r is Ok <==> font_config_complete(*fonts),
        r matches Ok(plan) ==> ({
            &&& fonts.font_path == Some(plan.font_path)
            &&& fonts.font_name == Some(plan.font_name)
            &&& plan.file_name@ == "Face_Detection_Results.pdf"@
            &&& plan.document.title@ == "Face Detection Results"@
            &&& blocks_views(plan.document.blocks@) == face_result_blocks(
                headers@,
                records@,
                job_id@,
                names.0@,
                names.1@,
            )
        }),
        r matches Err(e) ==> (e == ReportConfigError::FontConfigUnset <==> fonts.font_path
            is None),
        r matches Err(e) ==> (e == ReportConfigError::FontNameUnset <==> (fonts.font_path is Some
            && fonts.font_name is None)),
{
    let (bucket_name, video_name) = names;
    let mut table = create_table("Face Information", "Predictions");
    push_table_data_face_results(headers, records, &mut table);
    let ghost table_rows = table.rows@;
    match resolve_font(fonts) {
        Ok((font_path, font_name)) => {
            let mut document = DocumentModel { title: String::new(), blocks: Vec::new() };
            document_configuration(
                &mut document,
                "Face Detection Results",
                "Result of Start Face Detection Task",
            );
            document.blocks.push(Block::Break(1));
            let mut job_line = String::from_str("Job ID:  ");
            job_line.append(job_id);
            document.blocks.push(Block::Paragraph(Align::Left, job_line));
            let mut bucket_line = String::from_str("Bucket Name:  ");
            bucket_line.append(bucket_name.as_str());
            document.blocks.push(Block::Paragraph(Align::Left, bucket_line));
            let mut video_line = String::from_str("Key Face Video Name:  ");
            video_line.append(video_name.as_str());
            document.blocks.push(Block::Paragraph(Align::Left, video_line));
            document.blocks.push(Block::Break(1));
            document.blocks.push(Block::Table(table));
            proof {
                assert(rows_views(table_rows) =~~= cyclic_table_rows(
                    "Face Information"@,
                    "Predictions"@,
                    headers@,
                    records@,
                    FACE_REPORT_SPACER_INTERVAL as nat,
                ));
                assert(blocks_views(document.blocks@) =~~= face_result_blocks(
                    headers@,
                    records@,
                    job_id@,
                    names.0@,
                    names.1@,
                ));
            }
            Ok(
                RenderPlan {
                    font_path,
                    font_name,
                    file_name: String::from_str("Face_Detection_Results.pdf"),
                    document,
                },
            )
        },
        Err(e) => Err(e),
    }
}

/// The block structure of the identity-listing report.
pub open spec fn email_identities_blocks(
    headers: Seq<String>,
    identities: Seq<String>,
    region_name: Seq<char>,
) -> Seq<BlockView> {
    seq![
        BlockView::Paragraph(Align::Center, "Result of List Email Identities"@),
        BlockView::Break(1),
        BlockView::Paragraph(Align::Left, "Region Name:  "@ + region_name),
        BlockView::Break(1),
        BlockView::Table(
            2,
            cyclic_table_rows(
                "Identity Info"@,
                "Values"@,
                headers,
                identities,
                IDENTITY_REPORT_SPACER_INTERVAL as nat,
            ),
        ),
    ]
}

/// Lays out the identity-listing report, or degrades to a configuration
/// error with no document.
pub fn create_email_identities_pdf(
    headers: &Vec<String>,
    identities: Vec<String>,
    region_name: &str,
    fonts: &FontConfig,
) -> (r: Result<RenderPlan, ReportConfigError>)
    requires
        headers@.len() > 0,
    ensures
        r is Ok <==> font_config_complete(*fonts),
        r matches Ok(plan) ==> ({
            &&& fonts.font_path == Some(plan.font_path)
            &&& fonts.font_name == Some(plan.font_name)
            &&& plan.file_name@ == "EmailIdentitiesInfo.pdf"@
            &&& plan.document.title@ == "Email Identies"@
            &&& blocks_views(plan.document.blocks@) == email_identities_blocks(
                headers@,
                identities@,
                region_name@,
            )
        }),
        r matches Err(e) ==> (e == ReportConfigError::FontConfigUnset <==> fonts.font_path
            is None),
        r matches Err(e) ==> (e == ReportConfigError::FontNameUnset <==> (fonts.font_path is Some
            && fonts.font_name is None)),
{
    let mut table = create_table("Identity Info", "Values");
    push_table_data_emails_identies(headers, identities, &mut table);
    let ghost table_rows = table.rows@;
    match resolve_font(fonts) {
        Ok((font_path, font_name)) => {
            let mut document = DocumentModel { title: String::new(), blocks: Vec::new() };
            document_configuration(
                &mut document,
                "Email Identies",
                "Result of List Email Identities",
            );
            document.blocks.push(Block::Break(1));
            let mut region_line = String::from_str("Region Name:  ");
            region_line.append(region_name);
            document.blocks.push(Block::Paragraph(Align::Left, region_line));
            document.blocks.push(Block::Break(1));
            document.blocks.push(Block::Table(table));
            proof {
                assert(rows_views(table_rows) =~~= cyclic_table_rows(
                    "Identity Info"@,
                    "Values"@,
                    headers@,
                    identities@,
                    IDENTITY_REPORT_SPACER_INTERVAL as nat,
                ));
                assert(blocks_views(document.blocks@) =~~= email_identities_blocks(
                    headers@,
                    identities@,
                    region_name@,
                ));
            }
            Ok(
                RenderPlan {
                    font_path,
                    font_name,
                    file_name: String::from_str("EmailIdentitiesInfo.pdf"),
                    document,
                },
            )
        },
        Err(e) => Err(e),
    }
}

/// The blocks the image gallery appends: per image, its name line, a gap,
/// the image itself from the gallery directory, and a wider gap.
pub open spec fn gallery_blocks(image_names: Seq<String>) -> Seq<BlockView>
    decreases image_names.len(),
{
    if image_names.len() == 0 {
        Seq::empty()
    } else {
        gallery_blocks(image_names.drop_last()) + seq![
            BlockView::Paragraph(Align::Center, "Image Name: "@ + image_names.last()@),
            BlockView::Break(1),
            BlockView::Image("face_details_images/"@ + image_names.last()@),
            BlockView::Break(2),
        ]
    }
}

/// Appends one gallery entry per image name, in order.
pub fn push_images_into_document(document: &mut DocumentModel, image_names: Vec<String>)
    ensures
        final(document).title == old(document).title,
        blocks_views(final(document).blocks@) == blocks_views(old(document).blocks@)
            + gallery_blocks(image_names@),
{
    let ghost orig = document.blocks@;
    let ghost all = image_names@;
    let mut rest = image_names;
    let total: usize = rest.len();
    let mut count: usize = 0;
    while rest.len() > 0
        invariant
            document.title == old(document).title,
            total == all.len(),
            count + rest@.len() == all.len(),
            rest@ == all.skip(count as int),
            blocks_views(document.blocks@) == blocks_views(orig) + gallery_blocks(
                all.take(count as int),
            ),
        decreases rest@.len(),
    {
        let ghost done = count as int;
        let ghost before = rest@;
        let image_name = rest.remove(0);
        proof {
            assert(rest@ =~= before.skip(1));
            assert(rest@ =~= all.skip(done + 1));
            assert(image_name == all[done]);
        }
        let mut name_line = String::from_str("Image Name: ");
        name_line.append(image_name.as_str());
        document.blocks.push(Block::Paragraph(Align::Center, name_line));
        document.blocks.push(Block::Break(1));
        let mut image_path = String::from_str("face_details_images/");
        image_path.append(image_name.as_str());
        document.blocks.push(Block::Image(image_path));
        document.blocks.push(Block::Break(2));
        count = count + 1;
        proof {
            assert(all.take(done + 1).drop_last() =~= all.take(done));
            assert(all.take(done + 1).last() == all[done]);
            assert(blocks_views(document.blocks@) =~~= blocks_views(orig) + gallery_blocks(
                all.take(done + 1),
            ));
        }
    }
    proof {
        assert(all.take(all.len() as int) =~= all);
    }
}

/// The block structure of the face-gallery report.
pub open spec fn detect_face_blocks(
    bucket_name: Seq<char>,
    path_prefix: Seq<char>,
    image_names: Seq<String>,
) -> Seq<BlockView> {
    seq![
        BlockView::Paragraph(Align::Center, "Result of DetectFaces"@),
        BlockView::Break(1),
        BlockView::Paragraph(Align::Left, "Bucket Name:  "@ + bucket_name),
        BlockView::Break(1),
        BlockView::Paragraph(Align::Left, "Bucket Path Prefix:  "@ + path_prefix),
        BlockView::Break(1),
    ] + gallery_blocks(image_names)
}

/// Lays out the face-gallery report over the given directory entries, or
/// degrades to a configuration error with no document.
pub fn create_detect_face_image_pdf(
    bucket_name: &str,
    path_prefix: &str,
    image_names: Vec<String>,
    fonts: &FontConfig,
) -> (r: Result<RenderPlan, ReportConfigError>)
    ensures
        r is Ok <==> font_config_complete(*fonts),
        r matches Ok(plan) ==> ({
            &&& fonts.font_path == Some(plan.font_path)
            &&& fonts.font_name == Some(plan.font_name)
            &&& plan.file_name@ == "DetectFaces.pdf"@
            &&& plan.document.title@ == "DetectFaces"@
            &&& blocks_views(plan.document.blocks@) == detect_face_blocks(
                bucket_name@,
                path_prefix@,
                image_names@,
            )
        }),
        r matches Err(e) ==> (e == ReportConfigError::FontConfigUnset <==> fonts.font_path
            is None),
        r matches Err(e) ==> (e == ReportConfigError::FontNameUnset <==> (fonts.font_path is Some
            && fonts.font_name is None)),
{
    match resolve_font(fonts) {
        Ok((font_path, font_name)) => {
            let mut document = DocumentModel { title: String::new(), blocks: Vec::new() };
            document_configuration(&mut document, "DetectFaces", "Result of DetectFaces");
            document.blocks.push(Block::Break(1));
            let mut bucket_line = String::from_str("Bucket Name:  ");
            bucket_line.append(bucket_name);
            document.blocks.push(Block::Paragraph(Align::Left, bucket_line));
            document.blocks.push(Block::Break(1));
            let mut prefix_line = String::from_str("Bucket Path Prefix:  ");
            prefix_line.append(path_prefix);
            document.blocks.push(Block::Paragraph(Align::Left, prefix_line));
            document.blocks.push(Block::Break(1));
            push_images_into_document(&mut document, image_names);
            proof {
                assert(blocks_views(document.blocks@) =~~= detect_face_blocks(
                    bucket_name@,
                    path_prefix@,
                    image_names@,
                ));
            }
            Ok(
                RenderPlan {
                    font_path,
                    font_name,
                    file_name: String::from_str("DetectFaces.pdf"),
                    document,
                },
            )
        },
        Err(e) => Err(e),
    }
}

} // verus!
