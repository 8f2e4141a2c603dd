use cloud_ops::pdf_writer::create_detect_face_image_pdf;
use cloud_ops::pdf_writer::create_email_identities_pdf;
use cloud_ops::pdf_writer::create_email_pdf;
use cloud_ops::pdf_writer::create_face_result_pdf;
use cloud_ops::pdf_writer::create_table;
use cloud_ops::pdf_writer::create_table_with_one_column;
use cloud_ops::pdf_writer::create_text_result_pdf;
use cloud_ops::pdf_writer::push_cyclic_rows;
use cloud_ops::pdf_writer::push_table_data_emails;
use cloud_ops::pdf_writer::push_table_data_emails_identies;
use cloud_ops::pdf_writer::push_table_data_face_results;
use cloud_ops::pdf_writer::resolve_font;
use cloud_ops::pdf_writer::Align;
use cloud_ops::pdf_writer::Block;
use cloud_ops::pdf_writer::FontConfig;
use cloud_ops::pdf_writer::ReportConfigError;
use cloud_ops::pdf_writer::TableRow;

fn strings(items: &[&str]) -> Vec<String> {
    items.iter().map(|s| s.to_string()).collect()
}

fn complete_fonts() -> FontConfig {
    FontConfig {
        font_path: Some("./fonts".to_string()),
        font_name: Some("Roboto".to_string()),
    }
}

fn pair_of(row: &TableRow) -> (&str, &str) {
    match row {
        TableRow::Pair(h, v) => (h.as_str(), v.as_str()),
        _ => panic!("expected a data row"),
    }
}

#[test]
fn cyclic_table_cycles_headers_and_spaces_every_interval() {
    let mut table = create_table("H", "V");
    let headers = strings(&["A", "B"]);
    push_cyclic_rows(&headers, strings(&["1", "2", "3", "4"]), &mut table, 4);
    // head row and its spacer, then 4 data rows and exactly floor(4/4) = 1 spacer
    assert_eq!(table.rows.len(), 2 + 4 + 1);
    assert_eq!(pair_of(&table.rows[2]), ("A", "1"));
    assert_eq!(pair_of(&table.rows[3]), ("B", "2"));
    assert_eq!(pair_of(&table.rows[4]), ("A", "3"));
    assert_eq!(pair_of(&table.rows[5]), ("B", "4"));
    assert!(matches!(table.rows[6], TableRow::Spacer));
}

#[test]
fn cyclic_table_with_interval_two_spaces_twice() {
    let mut table = create_table("H", "V");
    let headers = strings(&["A", "B"]);
    push_cyclic_rows(&headers, strings(&["1", "2", "3", "4"]), &mut table, 2);
    assert_eq!(table.rows.len(), 2 + 4 + 2);
    assert!(matches!(table.rows[4], TableRow::Spacer));
    assert!(matches!(table.rows[7], TableRow::Spacer));
}

#[test]
fn face_rows_space_every_ninth_row() {
    let mut table = create_table("Face Information", "Predictions");
    let headers = strings(&["a", "b", "c"]);
    let records = strings(&["1", "2", "3", "4", "5", "6", "7", "8", "9"]);
    push_table_data_face_results(&headers, records, &mut table);
    // floor(9/9) = 1 spacer, after the ninth data row
    assert_eq!(table.rows.len(), 2 + 9 + 1);
    assert!(matches!(table.rows[11], TableRow::Spacer));
    assert_eq!(pair_of(&table.rows[10]), ("c", "9"));
}

#[test]
fn identity_rows_misalign_silently_when_not_a_multiple() {
    let mut table = create_table("Identity Info", "Values");
    let headers = strings(&["A", "B", "C"]);
    push_table_data_emails_identies(&headers, strings(&["1", "2", "3", "4"]), &mut table);
    // 4 data rows, floor(4/4) = 1 spacer; the cycle restarts mid-record
    assert_eq!(table.rows.len(), 2 + 4 + 1);
    assert_eq!(pair_of(&table.rows[5]), ("A", "4"));
}

#[test]
fn email_rows_carry_no_spacers() {
    let mut table = create_table_with_one_column("Emails");
    push_table_data_emails(strings(&["x@y", "z@w"]), &mut table);
    assert_eq!(table.rows.len(), 4);
    assert!(matches!(table.rows[1], TableRow::Spacer));
    match (&table.rows[2], &table.rows[3]) {
        (TableRow::Single(a), TableRow::Single(b)) => {
            assert_eq!(a, "x@y");
            assert_eq!(b, "z@w");
        }
        _ => panic!("expected two data rows"),
    }
}

#[test]
fn resolve_font_requires_both_parts() {
    let complete = resolve_font(&complete_fonts()).unwrap();
    assert_eq!(complete.0, "./fonts");
    assert_eq!(complete.1, "Roboto");
    let path_only = FontConfig {
        font_path: Some("./fonts".to_string()),
        font_name: None,
    };
    assert_eq!(
        resolve_font(&path_only).unwrap_err(),
        ReportConfigError::FontNameUnset
    );
    let nothing = FontConfig {
        font_path: None,
        font_name: None,
    };
    assert_eq!(
        resolve_font(&nothing).unwrap_err(),
        ReportConfigError::FontConfigUnset
    );
}

#[test]
fn config_error_messages_match_the_diagnostics() {
    assert_eq!(
        ReportConfigError::FontNameUnset.message(),
        "The PDF generation process cannot proceed because the essential environment variable,'FONT_NAME', has not been set. Instead, a text document is generated"
    );
    assert_eq!(
        ReportConfigError::FontConfigUnset.message(),
        "The PDF generation process cannot proceed because the essential environment variable, 'FONT_PATH', and 'FONT_NAME' has not been set. Instead, a text document is generated"
    );
}

#[test]
fn email_report_without_fonts_produces_no_document() {
    let fonts = FontConfig {
        font_path: None,
        font_name: None,
    };
    let r = create_email_pdf(strings(&["a@b"]), "list", "eu-west-1", &fonts);
    assert_eq!(r.unwrap_err(), ReportConfigError::FontConfigUnset);
}

#[test]
fn email_report_with_fonts_plans_one_file_at_the_declared_path() {
    let plan = create_email_pdf(strings(&["a@b", "c@d"]), "list", "eu-west-1", &complete_fonts())
        .unwrap();
    assert_eq!(plan.file_name, "Emails.pdf");
    assert_eq!(plan.font_path, "./fonts");
    assert_eq!(plan.font_name, "Roboto");
    assert_eq!(plan.document.title, "Email List");
    assert_eq!(plan.document.blocks.len(), 6);
    match &plan.document.blocks[0] {
        Block::Paragraph(Align::Center, text) => {
            assert_eq!(text, "Emails in the Specified List")
        }
        _ => panic!("expected the page title"),
    }
    match &plan.document.blocks[2] {
        Block::Paragraph(Align::Left, text) => assert_eq!(text, "Contact List Name: list"),
        _ => panic!("expected the contact-list line"),
    }
    match &plan.document.blocks[5] {
        Block::Table(t) => {
            assert_eq!(t.columns, 1);
            assert_eq!(t.rows.len(), 4);
        }
        _ => panic!("expected the email table"),
    }
}

#[test]
fn text_report_plans_its_file_and_meta_lines() {
    let headers = strings(&["Text", "Confidence", "Kind", "Frame"]);
    let plan = create_text_result_pdf(
        &headers,
        strings(&["t", "0.9", "LINE", "12"]),
        "job-9".to_string(),
        ("bucket".to_string(), "video.mp4".to_string()),
        &complete_fonts(),
    )
    .unwrap();
    assert_eq!(plan.file_name, "Text_Detection_Results.pdf");
    assert_eq!(plan.document.title, "Text Detection Results");
    match &plan.document.blocks[2] {
        Block::Paragraph(Align::Left, text) => assert_eq!(text, "Job ID:  job-9"),
        _ => panic!("expected the job line"),
    }
    match &plan.document.blocks[6] {
        Block::Table(t) => {
            assert_eq!(t.columns, 2);
            // head row + its spacer + 4 data rows + 1 spacer
            assert_eq!(t.rows.len(), 7);
        }
        _ => panic!("expected the result table"),
    }
}

#[test]
fn text_report_without_font_name_reports_it() {
    let headers = strings(&["A"]);
    let fonts = FontConfig {
        font_path: Some("./fonts".to_string()),
        font_name: None,
    };
    let r = create_text_result_pdf(
        &headers,
        strings(&[]),
        "j".to_string(),
        ("b".to_string(), "v".to_string()),
        &fonts,
    );
    assert_eq!(r.unwrap_err(), ReportConfigError::FontNameUnset);
}

#[test]
fn face_report_plans_its_file() {
    let headers = strings(&["a", "b", "c", "d", "e", "f", "g", "h", "i"]);
    let plan = create_face_result_pdf(
        &headers,
        strings(&["1", "2"]),
        "job-1",
        ("bucket".to_string(), "faces.mp4".to_string()),
        &complete_fonts(),
    )
    .unwrap();
    assert_eq!(plan.file_name, "Face_Detection_Results.pdf");
    assert_eq!(plan.document.title, "Face Detection Results");
    match &plan.document.blocks[4] {
        Block::Paragraph(Align::Left, text) => assert_eq!(text, "Key Face Video Name:  faces.mp4"),
        _ => panic!("expected the video line"),
    }
}

#[test]
fn identities_report_plans_its_file() {
    let headers = strings(&["IdentityType", "IdentityName", "SendingEnabled", "Verified"]);
    let plan = create_email_identities_pdf(
        &headers,
        strings(&["EMAIL_ADDRESS", "a@b", "true", "false"]),
        "eu-west-1",
        &complete_fonts(),
    )
    .unwrap();
    assert_eq!(plan.file_name, "EmailIdentitiesInfo.pdf");
    assert_eq!(plan.document.title, "Email Identies");
    match &plan.document.blocks[2] {
        Block::Paragraph(Align::Left, text) => assert_eq!(text, "Region Name:  eu-west-1"),
        _ => panic!("expected the region line"),
    }
}

#[test]
fn gallery_report_embeds_every_directory_entry() {
    let plan = create_detect_face_image_pdf(
        "bucket",
        "faces/",
        strings(&["one.png", "two.png"]),
        &complete_fonts(),
    )
    .unwrap();
    assert_eq!(plan.file_name, "DetectFaces.pdf");
    assert_eq!(plan.document.title, "DetectFaces");
    // six preamble blocks, then four blocks per image
    assert_eq!(plan.document.blocks.len(), 6 + 8);
    match &plan.document.blocks[6] {
        Block::Paragraph(Align::Center, text) => assert_eq!(text, "Image Name: one.png"),
        _ => panic!("expected the image name line"),
    }
    match &plan.document.blocks[8] {
        Block::Image(path) => assert_eq!(path, "face_details_images/one.png"),
        _ => panic!("expected the image block"),
    }
    match &plan.document.blocks[13] {
        Block::Break(n) => assert_eq!(*n, 2),
        _ => panic!("expected the trailing gap"),
    }
}

#[test]
fn gallery_report_without_fonts_produces_no_document() {
    let fonts = FontConfig {
        font_path: None,
        font_name: Some("Roboto".to_string()),
    };
    let r = create_detect_face_image_pdf("bucket", "faces/", strings(&["one.png"]), &fonts);
    assert_eq!(r.unwrap_err(), ReportConfigError::FontConfigUnset);
}
