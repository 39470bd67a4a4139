//! The request and response shapes of the library's entry points, as the
//! hosting request layer hands them in and receives them back. Identity
//! fields arriving from the wire are 24-hex-character strings; identities
//! the library already holds are [`ObjectId`] values.

use vstd::prelude::*;

use crate::model::{Book, Chapter, Conversation, Message};
use crate::oid::ObjectId;

verus! {

/// A successful response: a status tag and the payload.
#[derive(Debug)]
pub struct SuccessResponse<T> {
    pub status: String,
    pub data: T,
}

/// A user record, as the account collaborator describes it.
#[derive(Debug)]
pub struct User {
    pub id: ObjectId,
    pub name: String,
    pub email: String,
    pub password: String,
    pub role: String,
    pub photo: String,
    pub verified: bool,
    pub created_at: i64,
    pub updated_at: i64,
}

/// Registration data for a new account.
#[derive(Debug)]
pub struct RegisterUserSchema {
    pub name: String,
    pub email: String,
    pub password: String,
}

/// Login credentials.
#[derive(Debug)]
pub struct LoginUserSchema {
    pub email: String,
    pub password: String,
}

/// A fresh authentication token.
#[derive(Debug)]
pub struct AuthResponse {
    pub token: String,
}

/// The requester's own user record.
#[derive(Debug)]
pub struct UserResponse {
    pub user: User,
}

/// Store one already-written book.
#[derive(Debug)]
pub struct StoreBookRequest {
    pub token: String,
    pub title: String,
    pub subtitle: String,
    pub content: String,
    pub book_type: Option<String>,
    pub main_topic: Option<String>,
}

/// Replace a book's edited content.
#[derive(Debug)]
pub struct UpdateBookContentRequest {
    pub token: String,
    pub book_id: String,
    pub new_content: String,
}

/// Mark a book completed.
#[derive(Debug)]
pub struct CompleteBookRequest {
    pub book_id: ObjectId,
}

/// List the requester's books.
#[derive(Debug)]
pub struct GetBooksForUserRequest {
    pub token: String,
}

/// Generate a book outline and persist its skeleton.
#[derive(Debug)]
pub struct GenerateBookRequest {
    pub title: String,
    pub subtitle: String,
    pub token: String,
    pub model: String,
    pub subtopics: u64,
    pub chapters: u64,
    pub language: String,
    pub max_length: u64,
}

/// Generate one chapter's content.
#[derive(Debug)]
pub struct GenerateChapterContentRequest {
    pub chapter_title: String,
    pub chapter_id: ObjectId,
    pub book_title: String,
    pub main_topic: String,
    pub language: String,
    pub model: String,
}

/// Fetch one of the requester's books.
#[derive(Debug)]
pub struct GetBookForUserRequest {
    pub token: String,
    pub book_id: String,
}

/// Run one editing-assistant action over a piece of text.
#[derive(Debug)]
pub struct AIRequest {
    pub token: String,
    pub text: String,
}

/// List a book's chapters.
#[derive(Debug)]
pub struct GetChaptersContentRequest {
    pub book_id: String,
}

/// A stored book's identity.
#[derive(Debug)]
pub struct BookResponse {
    pub id: ObjectId,
}

/// A persisted outline: the book and its ordered chapters.
#[derive(Debug)]
pub struct GenerateBookOutlineResponse {
    pub chapters: Vec<Chapter>,
    pub book: Book,
}

/// Open a conversation about a book.
#[derive(Debug)]
pub struct CreateConversationRequest {
    pub token: String,
    pub book_id: String,
    pub title: String,
}

/// List the requester's conversations about a book.
#[derive(Debug)]
pub struct GetConversationsRequest {
    pub token: String,
    pub book_id: String,
}

/// List a conversation's messages.
#[derive(Debug)]
pub struct GetMessagesRequest {
    pub token: String,
    pub conversation_id: ObjectId,
}

/// Ask a question about one chapter of one book.
#[derive(Debug)]
pub struct SendQueryRequest {
    pub conversation_id: ObjectId,
    pub query: String,
    pub book: String,
    pub chapter: String,
    pub model: String,
    pub token: String,
}

/// One created conversation.
#[derive(Debug)]
pub struct ConversationResponse {
    pub status: String,
    pub data: Conversation,
}

/// The conversations of a user about a book.
#[derive(Debug)]
pub struct ConversationsListResponse {
    pub status: String,
    pub data: Vec<Conversation>,
}

/// The messages of a conversation.
#[derive(Debug)]
pub struct MessagesListResponse {
    pub status: String,
    pub data: Vec<Message>,
}

/// The answer message the chat produced.
#[derive(Debug)]
pub struct MessageResponse {
    pub status: String,
    pub data: Message,
}

/// Start a checkout for a plan.
#[derive(Debug)]
pub struct StripePaymentRequest {
    pub plan_id: String,
}

/// Look up a user's subscription.
#[derive(Debug)]
pub struct SubscriptionDetailRequest {
    pub user_id: ObjectId,
}

/// A subscription's payment-provider state.
#[derive(Debug)]
pub struct SubscriptionDetailResponse {
    pub session: String,
    pub method: String,
}

/// Drop a subscription.
#[derive(Debug)]
pub struct UpdateSubscriptionRequest {
    pub subscription_id: String,
}

} // verus!
