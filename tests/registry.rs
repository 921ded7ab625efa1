use anchor_lang::prelude::Pubkey;
use brand_validator::error::ErrorCode;
use brand_validator::identity::Identity;
use brand_validator::instructions::{
    add_product, buy_product, delete_product, validate_product, AddProduct, BuyProduct,
    DeleteProduct, ValidateProduct,
};
use brand_validator::lifecycle::Status;
use brand_validator::policy::{authorize_create, authorize_delete, check_company};
use brand_validator::registry::ProductRegistry;

fn company_key() -> Identity {
    Identity::new([7u8; 32])
}

fn stranger_key() -> Identity {
    Identity::new([9u8; 32])
}

fn text_of(id: &Identity) -> String {
    Pubkey::new_from_array(id.key).to_string()
}

fn registry() -> ProductRegistry {
    ProductRegistry::new(text_of(&company_key()))
}

fn add(reg: &mut ProductRegistry, owner: Identity, id: &str, now: i64) -> Result<(), ErrorCode> {
    add_product(reg, &AddProduct { owner, now }, id.to_string())
}

fn read(reg: &ProductRegistry, slot: Identity) -> Result<(String, Status), ErrorCode> {
    validate_product(reg, &ValidateProduct { product_account: slot })
}

fn buy(reg: &mut ProductRegistry, slot: Identity, id: &str, now: i64) -> Result<(), ErrorCode> {
    buy_product(reg, &BuyProduct { product_account: slot, now }, id.to_string())
}

fn delete(reg: &mut ProductRegistry, slot: Identity, owner: Identity) -> Result<(), ErrorCode> {
    delete_product(reg, &DeleteProduct { product_account: slot, owner })
}

#[test]
fn widget_lifecycle() {
    let mut reg = registry();
    let company = company_key();
    assert_eq!(add(&mut reg, company, "WIDGET-1", 10), Ok(()));
    assert_eq!(read(&reg, company), Ok(("WIDGET-1".to_string(), Status::Listed)));
    assert_eq!(buy(&mut reg, company, "WIDGET-1", 20), Ok(()));
    assert_eq!(read(&reg, company), Ok(("WIDGET-1".to_string(), Status::Sold)));
    assert_eq!(buy(&mut reg, company, "WIDGET-1", 30), Err(ErrorCode::ProductAlreadyBought));
    assert_eq!(delete(&mut reg, company, company), Ok(()));
    assert_eq!(read(&reg, company), Err(ErrorCode::NotFound));
}

#[test]
fn read_twice_gives_the_same_answer() {
    let mut reg = registry();
    let company = company_key();
    add(&mut reg, company, "LAMP", 1).unwrap();
    let first = read(&reg, company);
    let second = read(&reg, company);
    assert_eq!(first, second);
    assert_eq!(first, Ok(("LAMP".to_string(), Status::Listed)));
}

#[test]
fn only_one_purchase_succeeds() {
    let mut reg = registry();
    let company = company_key();
    add(&mut reg, company, "CHAIR", 1).unwrap();
    let mut successes = 0;
    for t in 2..8 {
        if buy(&mut reg, company, "CHAIR", t).is_ok() {
            successes += 1;
        }
    }
    assert_eq!(successes, 1);
}

#[test]
fn create_refused_for_stranger() {
    let mut reg = registry();
    let stranger = stranger_key();
    assert_eq!(add(&mut reg, stranger, "X", 1), Err(ErrorCode::UnauthorizedCompany));
    let too_long = "a".repeat(501);
    assert_eq!(add(&mut reg, stranger, &too_long, 1), Err(ErrorCode::UnauthorizedCompany));
    assert_eq!(read(&reg, stranger), Err(ErrorCode::NotFound));
}

#[test]
fn delete_refused_for_stranger() {
    let mut reg = registry();
    let company = company_key();
    add(&mut reg, company, "DESK", 1).unwrap();
    assert_eq!(delete(&mut reg, company, stranger_key()), Err(ErrorCode::UnauthorizedCompany));
    assert_eq!(read(&reg, company), Ok(("DESK".to_string(), Status::Listed)));
}

#[test]
fn delete_of_sold_record_succeeds() {
    let mut reg = registry();
    let company = company_key();
    add(&mut reg, company, "DESK", 1).unwrap();
    buy(&mut reg, company, "DESK", 2).unwrap();
    assert_eq!(delete(&mut reg, company, company), Ok(()));
    assert_eq!(read(&reg, company), Err(ErrorCode::NotFound));
}

#[test]
fn delete_of_empty_slot_not_found() {
    let mut reg = registry();
    let company = company_key();
    assert_eq!(delete(&mut reg, company, company), Err(ErrorCode::NotFound));
    assert_eq!(delete(&mut reg, stranger_key(), company), Err(ErrorCode::NotFound));
}

#[test]
fn authorize_delete_owner_mismatch() {
    let company = company_key();
    let company_text = text_of(&company);
    assert_eq!(authorize_delete(&company, &stranger_key(), &company_text), Err(ErrorCode::Unauthorized));
    assert_eq!(authorize_delete(&company, &company, &company_text), Ok(()));
    assert_eq!(
        authorize_delete(&stranger_key(), &stranger_key(), &company_text),
        Err(ErrorCode::UnauthorizedCompany)
    );
}

#[test]
fn authorize_create_compares_base58_text() {
    let company = company_key();
    assert_eq!(authorize_create(&company, &text_of(&company)), Ok(()));
    assert_eq!(authorize_create(&stranger_key(), &text_of(&company)), Err(ErrorCode::UnauthorizedCompany));
    let zero = Identity::new([0u8; 32]);
    assert_eq!(authorize_create(&zero, &"11111111111111111111111111111111".to_string()), Ok(()));
    assert_eq!(
        authorize_create(&zero, &"YOUR_COMPANY_PUBLIC_KEY_HERE".to_string()),
        Err(ErrorCode::UnauthorizedCompany)
    );
}

#[test]
fn check_company_on_text() {
    let company = "11111111111111111111111111111111".to_string();
    assert_eq!(check_company(&company.clone(), &company), Ok(()));
    assert_eq!(
        check_company(&"1111111111111111111111111111111".to_string(), &company),
        Err(ErrorCode::UnauthorizedCompany)
    );
}

#[test]
fn length_boundary() {
    let company = company_key();
    let mut reg = registry();
    let five_hundred = "p".repeat(500);
    assert_eq!(add(&mut reg, company, &five_hundred, 1), Ok(()));
    assert_eq!(read(&reg, company), Ok((five_hundred.clone(), Status::Listed)));
    let mut reg = registry();
    let five_hundred_one = "p".repeat(501);
    assert_eq!(add(&mut reg, company, &five_hundred_one, 1), Err(ErrorCode::StringTooLong));
    assert_eq!(read(&reg, company), Err(ErrorCode::NotFound));
}

#[test]
fn length_counts_characters() {
    let company = company_key();
    let mut reg = registry();
    let wide = "é".repeat(500);
    assert_eq!(add(&mut reg, company, &wide, 1), Ok(()));
    let mut reg = registry();
    let wider = "é".repeat(501);
    assert_eq!(add(&mut reg, company, &wider, 1), Err(ErrorCode::StringTooLong));
}

#[test]
fn empty_product_id_is_accepted() {
    let company = company_key();
    let mut reg = registry();
    assert_eq!(add(&mut reg, company, "", 1), Ok(()));
    assert_eq!(buy(&mut reg, company, "", 2), Ok(()));
    assert_eq!(read(&reg, company), Ok((String::new(), Status::Sold)));
}

#[test]
fn second_record_for_owner_refused() {
    let company = company_key();
    let mut reg = registry();
    add(&mut reg, company, "FIRST", 1).unwrap();
    assert_eq!(add(&mut reg, company, "SECOND", 2), Err(ErrorCode::SlotAlreadyBound));
    assert_eq!(read(&reg, company), Ok(("FIRST".to_string(), Status::Listed)));
    delete(&mut reg, company, company).unwrap();
    assert_eq!(add(&mut reg, company, "SECOND", 3), Ok(()));
    assert_eq!(read(&reg, company), Ok(("SECOND".to_string(), Status::Listed)));
}

#[test]
fn mismatched_purchase_refused() {
    let company = company_key();
    let mut reg = registry();
    add(&mut reg, company, "WIDGET-1", 5).unwrap();
    assert_eq!(buy(&mut reg, company, "WIDGET-2", 6), Err(ErrorCode::InvalidProductId));
    assert_eq!(buy(&mut reg, company, "WIDGET-", 6), Err(ErrorCode::InvalidProductId));
    assert_eq!(read(&reg, company), Ok(("WIDGET-1".to_string(), Status::Listed)));
    assert_eq!(reg.account(&company).unwrap().updated_at, 5);
}

#[test]
fn mismatch_checked_before_sold() {
    let company = company_key();
    let mut reg = registry();
    add(&mut reg, company, "WIDGET-1", 5).unwrap();
    buy(&mut reg, company, "WIDGET-1", 6).unwrap();
    assert_eq!(buy(&mut reg, company, "OTHER", 7), Err(ErrorCode::InvalidProductId));
}

#[test]
fn repurchase_keeps_update_time() {
    let company = company_key();
    let mut reg = registry();
    add(&mut reg, company, "BOOK", 100).unwrap();
    buy(&mut reg, company, "BOOK", 150).unwrap();
    assert_eq!(buy(&mut reg, company, "BOOK", 200), Err(ErrorCode::ProductAlreadyBought));
    let account = reg.account(&company).unwrap();
    assert_eq!(account.updated_at, 150);
    assert_eq!(account.created_at, 100);
}

#[test]
fn timestamps_and_owner_on_create_and_purchase() {
    let company = company_key();
    let mut reg = registry();
    add(&mut reg, company, "PEN", 42).unwrap();
    let account = reg.account(&company).unwrap();
    assert_eq!(account.created_at, 42);
    assert_eq!(account.updated_at, 42);
    assert!(account.owner.same_as(&company));
    assert_eq!(account.status, Status::Listed);
    buy(&mut reg, company, "PEN", 50).unwrap();
    let account = reg.account(&company).unwrap();
    assert_eq!(account.created_at, 42);
    assert_eq!(account.updated_at, 50);
    assert_eq!(account.status, Status::Sold);
}

#[test]
fn purchase_after_delete_not_found() {
    let company = company_key();
    let mut reg = registry();
    add(&mut reg, company, "CUP", 1).unwrap();
    delete(&mut reg, company, company).unwrap();
    assert_eq!(buy(&mut reg, company, "CUP", 2), Err(ErrorCode::NotFound));
    assert_eq!(read(&reg, company), Err(ErrorCode::NotFound));
}

#[test]
fn read_and_purchase_of_empty_slot() {
    let mut reg = registry();
    assert_eq!(read(&reg, stranger_key()), Err(ErrorCode::NotFound));
    assert_eq!(buy(&mut reg, stranger_key(), "X", 1), Err(ErrorCode::NotFound));
}

#[test]
fn registry_keeps_company_text() {
    let reg = registry();
    assert_eq!(reg.company_text(), &text_of(&company_key()));
    assert!(reg.account(&company_key()).is_none());
}

#[test]
fn identities_compare_by_key() {
    let mut key = [7u8; 32];
    assert!(Identity::new(key).same_as(&company_key()));
    key[31] = 8;
    assert!(!Identity::new(key).same_as(&company_key()));
}

#[test]
fn error_messages() {
    assert_eq!(ErrorCode::StringTooLong.message(), "Product ID exceeds maximum length of 500 characters");
    assert_eq!(ErrorCode::Unauthorized.message(), "Only the owner can perform this action");
    assert_eq!(ErrorCode::InvalidProductId.message(), "Invalid product ID provided");
    assert_eq!(ErrorCode::ProductAlreadyBought.message(), "Product has already been bought");
    assert_eq!(ErrorCode::UnauthorizedCompany.message(), "Only authorized company can add products");
}
