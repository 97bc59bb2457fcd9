use jbig2dec::{Document, Image, PageGeometry};

fn image(width: u32, height: u32, stride: u32, data: Vec<u8>) -> Image {
    Image::from_raw(PageGeometry { width, height, stride }, data).expect("a valid raster")
}

fn two_pages() -> Document {
    Document::new(vec![image(8, 2, 1, vec![1, 2]), image(16, 1, 2, vec![3, 4])])
}

#[test]
fn len_and_images_agree() {
    let doc = two_pages();
    assert_eq!(doc.len(), 2);
    assert_eq!(doc.images().len(), 2);
    assert_eq!(doc.images()[0].data(), &[1, 2]);
    assert_eq!(doc.images()[1].data(), &[3, 4]);
}

#[test]
fn an_empty_document_has_no_images() {
    let doc = Document::new(vec![]);
    assert_eq!(doc.len(), 0);
    assert!(doc.images().is_empty());
    assert!(doc.into_inner().is_empty());
}

#[test]
fn index_gives_the_page_in_engine_order() {
    let doc = two_pages();
    assert_eq!(doc[0].width(), 8);
    assert_eq!(doc[1].width(), 16);
    assert!(doc[1] == image(16, 1, 2, vec![3, 4]));
}

#[test]
fn index_mut_changes_one_page_and_leaves_the_count() {
    let mut doc = two_pages();
    doc.index_mut(1).data_mut()[0] = 0xFF;
    assert_eq!(doc.len(), 2);
    assert_eq!(doc[0].data(), &[1, 2]);
    assert_eq!(doc[1].data(), &[0xFF, 4]);
    assert_eq!(doc[1].width(), 16);
}

#[test]
fn into_inner_hands_out_the_images() {
    let images = two_pages().into_inner();
    assert_eq!(images.len(), 2);
    assert_eq!(images[0].height(), 2);
    assert_eq!(images[1].height(), 1);
}

#[test]
fn into_iter_walks_the_pages_in_order() {
    let widths: Vec<u32> = two_pages().into_iter().map(|i| i.width()).collect();
    assert_eq!(widths, vec![8, 16]);
}

#[test]
fn a_cloned_document_is_independent() {
    let doc = two_pages();
    let mut copy = doc.clone();
    copy.index_mut(0).data_mut()[1] = 7;
    assert_eq!(doc[0].data(), &[1, 2]);
    assert_eq!(copy[0].data(), &[1, 7]);
    assert_eq!(copy.len(), doc.len());
    assert!(copy[1] == doc[1]);
}
